use shylock::concepts::BoeConcept;
use shylock::parser::{
    parse_asset_auction_page, parse_data_from_catastro_dnprc_response, parse_extra_pages,
    parse_lot_auction_page, parse_lot_auction_page_links, parse_main_auction_links,
    parse_main_auction_page, parse_management_auction_page, parse_result_page, BASE_BOE_URL,
};
use shylock::table::ConceptTable;
use shylock::types::AuctionState;

#[test]
fn parse_lot_auction_page_links_test() {
        let input: &str = r#"<div id="cont-tabs">
      <div id="tabsver">
        <ul class="navlistver">
          <li>
            <a id="idTabLote1" href="./detalleSubasta.php?idSub=SUB-JA-2020-158475&amp;ver=3&amp;idLote=1&amp;idBus=_SGFOTnU2NVlnSUwvd2czQzBFcHdoUDFlZTZGS1pLT1lwNm5pbmNIdmNGTXpLNUpZcXNGRElabzlLSGdEckkwL1NuQmpKT3lSd3Z2QTJiM0dPTURUNXBYOEhSNzhqRG5CdExSSXFxZkZSM1phdTh2bkIwUjRXaWFwdkJ2ZzNmVmV0NWc5NjJpU2FDdHQ1amc1SHJSUmhGTGFSTkk4dlFkSWYwTXA5ckFaRUh2TWtkcjM4UmFVY3VCa1JOcklEdWFDdFZpcC81Z0I4UVVYRDdqQjhLeW9RZ2R3aHpOMzRXY1cyZWJwZWRKSXY2RkRHRndmL2JIUXFQckVHdVYzUEh6VA,,&amp;numPagBus=#cont-tabs" title="FINCA REGISTRAL N&#xBA; 29.047 DEL REGISTRO DE LA PROPIEDAD N&#xBA;1 DE LOGRO&#xD1;O"><span class="pc">Lote </span>1</a>
          </li>
          <li>
            <a id="idTabLote2" href="./detalleSubasta.php?idSub=SUB-JA-2020-158475&amp;ver=3&amp;idLote=2&amp;idBus=_SGFOTnU2NVlnSUwvd2czQzBFcHdoUDFlZTZGS1pLT1lwNm5pbmNIdmNGTXpLNUpZcXNGRElabzlLSGdEckkwL1NuQmpKT3lSd3Z2QTJiM0dPTURUNXBYOEhSNzhqRG5CdExSSXFxZkZSM1phdTh2bkIwUjRXaWFwdkJ2ZzNmVmV0NWc5NjJpU2FDdHQ1amc1SHJSUmhGTGFSTkk4dlFkSWYwTXA5ckFaRUh2TWtkcjM4UmFVY3VCa1JOcklEdWFDdFZpcC81Z0I4UVVYRDdqQjhLeW9RZ2R3aHpOMzRXY1cyZWJwZWRKSXY2RkRHRndmL2JIUXFQckVHdVYzUEh6VA,,&amp;numPagBus=#cont-tabs" title="FINCA REGISTRAL N&#xBA;29.023-45 DEL REGISTRO DE LA PROPIEDAD N&#xBA;1 DE LOGRO&#xD1;O" class="current"><span class="pc">Lote </span>2</a>
          </li>
        </ul>
      </div>
      </div>
      "#;
        let pages = parse_lot_auction_page_links(input).unwrap();
        assert_eq!(2, pages.len());
        assert_eq!(&"https://subastas.boe.es/./detalleSubasta.php?idSub=SUB-JA-2020-158475&ver=3&idLote=1&idBus=_SGFOTnU2NVlnSUwvd2czQzBFcHdoUDFlZTZGS1pLT1lwNm5pbmNIdmNGTXpLNUpZcXNGRElabzlLSGdEckkwL1NuQmpKT3lSd3Z2QTJiM0dPTURUNXBYOEhSNzhqRG5CdExSSXFxZkZSM1phdTh2bkIwUjRXaWFwdkJ2ZzNmVmV0NWc5NjJpU2FDdHQ1amc1SHJSUmhGTGFSTkk4dlFkSWYwTXA5ckFaRUh2TWtkcjM4UmFVY3VCa1JOcklEdWFDdFZpcC81Z0I4UVVYRDdqQjhLeW9RZ2R3aHpOMzRXY1cyZWJwZWRKSXY2RkRHRndmL2JIUXFQckVHdVYzUEh6VA,,&numPagBus=#cont-tabs",
                 pages.get(0).unwrap());
        assert_eq!(&"https://subastas.boe.es/./detalleSubasta.php?idSub=SUB-JA-2020-158475&ver=3&idLote=2&idBus=_SGFOTnU2NVlnSUwvd2czQzBFcHdoUDFlZTZGS1pLT1lwNm5pbmNIdmNGTXpLNUpZcXNGRElabzlLSGdEckkwL1NuQmpKT3lSd3Z2QTJiM0dPTURUNXBYOEhSNzhqRG5CdExSSXFxZkZSM1phdTh2bkIwUjRXaWFwdkJ2ZzNmVmV0NWc5NjJpU2FDdHQ1amc1SHJSUmhGTGFSTkk4dlFkSWYwTXA5ckFaRUh2TWtkcjM4UmFVY3VCa1JOcklEdWFDdFZpcC81Z0I4UVVYRDdqQjhLeW9RZ2R3aHpOMzRXY1cyZWJwZWRKSXY2RkRHRndmL2JIUXFQckVHdVYzUEh6VA,,&numPagBus=#cont-tabs",
                 pages.get(1).unwrap());
}

#[test]
fn parse_lot_auction_page_test() {
        let input: &str = r#"<div class="bloque" id="idBloqueLote2">
        <div>
          <div class="tablet movil">
            <h3>Lote 2</h3>
          </div>
          <div class="caja">FINCA REGISTRAL Nº29.023-45 DEL REGISTRO DE LA PROPIEDAD Nº1 DE LOGROÑO</div>
        </div>
        <div>
          <h3>Datos relacionados con la subasta del lote 2</h3>
          <table>
            <tr>
              <th>Valor Subasta</th>
              <td>15.100,00 €</td>
            </tr>
            <tr>
              <th>Importe del dep&#xF3;sito</th>
              <td>755,00 €</td>
            </tr>
            <tr>
              <th>Puja m&#xED;nima</th>
              <td>Sin puja mínima</td>
            </tr>
            <tr>
              <th>Tramos entre pujas</th>
              <td>302,00 €</td>
            </tr>
          </table>
        </div>
        <div>
          <h3>Datos del bien subastado</h3>
          <div>
            <h4>Bien 1 - Inmueble (Garaje)</h4>
            <table>
              <tr>
                <th>Descripción</th>
                <td>GARAJE SITO EN LOGROÑO</td>
              </tr>
              <tr>
                <th>Direcci&#xF3;n</th>
                <td>AVENIDA MANUEL DE FALLA Nº51 SOTANA Nº1</td>
              </tr>
              <tr>
                <th>Código Postal</th>
                <td>26007</td>
              </tr>
              <tr>
                <th>Localidad</th>
                <td>LOGROÑO</td>
              </tr>
              <tr>
                <th>Provincia</th>
                <td>La Rioja</td>
              </tr>
              <tr>
                <th>Situación posesoria</th>
                <td>No consta</td>
              </tr>
              <tr>
                <th>Visitable</th>
                <td>No consta</td>
              </tr>
            </table>
          </div>
        </div>
      </div>
    </div>
  </div>"#;

        let mut lot = ConceptTable::new();
        lot.insert(BoeConcept::AuctionValue, String::from("15.100,00 €"));
        lot.insert(BoeConcept::DepositAmount, String::from("755,00 €"));
        lot.insert(BoeConcept::MinimumBid, String::from("Sin puja mínima"));
        lot.insert(BoeConcept::BidStep, String::from("302,00 €"));
        lot.insert(BoeConcept::Header, String::from("BIEN 1 - INMUEBLE (GARAJE)"));
        lot.insert(BoeConcept::Description, String::from("GARAJE SITO EN LOGROÑO"));
        lot.insert(BoeConcept::Address, String::from("AVENIDA MANUEL DE FALLA Nº51 SOTANA Nº1"));
        lot.insert(BoeConcept::PostalCode, String::from("26007"));
        lot.insert(BoeConcept::City, String::from("LOGROÑO"));
        lot.insert(BoeConcept::Province, String::from("La Rioja"));
        lot.insert(BoeConcept::OwnerStatus, String::from("No consta"));
        lot.insert(BoeConcept::Visitable, String::from("No consta"));

        assert_eq!(lot, parse_lot_auction_page(input, "2").unwrap());
}

#[test]
fn parse_main_auction_links_test() {
        let input: &str = r#"<div id="tabs">
        <input type="checkbox" class="desplegable" id="dropDownFiltro" value="" name="dropDownFiltro"/>
        <label class="selected" for="dropDownFiltro" data-toggle="dropdown">Informaci&#xF3;n general</label>
        <ul class="navlist">
          <li>
            <a href="./detalleSubasta.php?idSub=SUB-JA-2020-149474&amp;ver=1&amp;idBus=_SGFOTnU2NVlnSUwvd2czQzBFcHdoUDFlZTZGS1pLT1lwNm5pbmNIdmNGTXpLNUpZcXNGRElabzlLSGdEckkwL1NuQmpKT3lSd3Z2QTJiM0dPTURUNXBYOEhSNzhqRG5CdExSSXFxZkZSM1phdTh2bkIwUjRXaWFwdkJ2ZzNmVmV0NWc5NjJpU2FDdHQ1amc1SHJSUmhGTGFSTkk4dlFkSWYwTXA5ckFaRUh2TWtkcjM4UmFVY3VCa1JOcklEdWFDdFZpcC81Z0I4UVVYRDdqQjhLeW9RZ2R3aHpOMzRXY1cyZWJwZWRKSXY2RkRHRndmL2JIUXFQckVHdVYzUEh6VA,,&amp;idLote=1&amp;numPagBus=" class="current">Informaci&#xF3;n general</a>
          </li>
          <li>
            <a href="./detalleSubasta.php?idSub=SUB-JA-2020-149474&amp;ver=2&amp;idBus=_SGFOTnU2NVlnSUwvd2czQzBFcHdoUDFlZTZGS1pLT1lwNm5pbmNIdmNGTXpLNUpZcXNGRElabzlLSGdEckkwL1NuQmpKT3lSd3Z2QTJiM0dPTURUNXBYOEhSNzhqRG5CdExSSXFxZkZSM1phdTh2bkIwUjRXaWFwdkJ2ZzNmVmV0NWc5NjJpU2FDdHQ1amc1SHJSUmhGTGFSTkk4dlFkSWYwTXA5ckFaRUh2TWtkcjM4UmFVY3VCa1JOcklEdWFDdFZpcC81Z0I4UVVYRDdqQjhLeW9RZ2R3aHpOMzRXY1cyZWJwZWRKSXY2RkRHRndmL2JIUXFQckVHdVYzUEh6VA,,&amp;idLote=1&amp;numPagBus=">Autoridad gestora</a>
          </li>
          <li>
            <a href="./detalleSubasta.php?idSub=SUB-JA-2020-149474&amp;ver=3&amp;idBus=_SGFOTnU2NVlnSUwvd2czQzBFcHdoUDFlZTZGS1pLT1lwNm5pbmNIdmNGTXpLNUpZcXNGRElabzlLSGdEckkwL1NuQmpKT3lSd3Z2QTJiM0dPTURUNXBYOEhSNzhqRG5CdExSSXFxZkZSM1phdTh2bkIwUjRXaWFwdkJ2ZzNmVmV0NWc5NjJpU2FDdHQ1amc1SHJSUmhGTGFSTkk4dlFkSWYwTXA5ckFaRUh2TWtkcjM4UmFVY3VCa1JOcklEdWFDdFZpcC81Z0I4UVVYRDdqQjhLeW9RZ2R3aHpOMzRXY1cyZWJwZWRKSXY2RkRHRndmL2JIUXFQckVHdVYzUEh6VA,,&amp;idLote=1&amp;numPagBus=">Lotes</a>
          </li>
          <li>
            <a href="./detalleSubasta.php?idSub=SUB-JA-2020-149474&amp;ver=4&amp;idBus=_SGFOTnU2NVlnSUwvd2czQzBFcHdoUDFlZTZGS1pLT1lwNm5pbmNIdmNGTXpLNUpZcXNGRElabzlLSGdEckkwL1NuQmpKT3lSd3Z2QTJiM0dPTURUNXBYOEhSNzhqRG5CdExSSXFxZkZSM1phdTh2bkIwUjRXaWFwdkJ2ZzNmVmV0NWc5NjJpU2FDdHQ1amc1SHJSUmhGTGFSTkk4dlFkSWYwTXA5ckFaRUh2TWtkcjM4UmFVY3VCa1JOcklEdWFDdFZpcC81Z0I4UVVYRDdqQjhLeW9RZ2R3aHpOMzRXY1cyZWJwZWRKSXY2RkRHRndmL2JIUXFQckVHdVYzUEh6VA,,&amp;idLote=1&amp;numPagBus=">Relacionados</a>
          </li>
          <li>
            <a href="./detalleSubasta.php?idSub=SUB-JA-2020-149474&amp;ver=5&amp;idBus=_SGFOTnU2NVlnSUwvd2czQzBFcHdoUDFlZTZGS1pLT1lwNm5pbmNIdmNGTXpLNUpZcXNGRElabzlLSGdEckkwL1NuQmpKT3lSd3Z2QTJiM0dPTURUNXBYOEhSNzhqRG5CdExSSXFxZkZSM1phdTh2bkIwUjRXaWFwdkJ2ZzNmVmV0NWc5NjJpU2FDdHQ1amc1SHJSUmhGTGFSTkk4dlFkSWYwTXA5ckFaRUh2TWtkcjM4UmFVY3VCa1JOcklEdWFDdFZpcC81Z0I4UVVYRDdqQjhLeW9RZ2R3aHpOMzRXY1cyZWJwZWRKSXY2RkRHRndmL2JIUXFQckVHdVYzUEh6VA,,&amp;idLote=1&amp;numPagBus=">Pujas</a>
          </li>
        </ul>
      </div>"#;
        let (link1, link2) = parse_main_auction_links(input).unwrap();

        assert_eq!("https://subastas.boe.es/./detalleSubasta.php?idSub=SUB-JA-2020-149474&ver=2&idBus=_SGFOTnU2NVlnSUwvd2czQzBFcHdoUDFlZTZGS1pLT1lwNm5pbmNIdmNGTXpLNUpZcXNGRElabzlLSGdEckkwL1NuQmpKT3lSd3Z2QTJiM0dPTURUNXBYOEhSNzhqRG5CdExSSXFxZkZSM1phdTh2bkIwUjRXaWFwdkJ2ZzNmVmV0NWc5NjJpU2FDdHQ1amc1SHJSUmhGTGFSTkk4dlFkSWYwTXA5ckFaRUh2TWtkcjM4UmFVY3VCa1JOcklEdWFDdFZpcC81Z0I4UVVYRDdqQjhLeW9RZ2R3aHpOMzRXY1cyZWJwZWRKSXY2RkRHRndmL2JIUXFQckVHdVYzUEh6VA,,&idLote=1&numPagBus=",
                 link1);
        assert_eq!("https://subastas.boe.es/./detalleSubasta.php?idSub=SUB-JA-2020-149474&ver=3&idBus=_SGFOTnU2NVlnSUwvd2czQzBFcHdoUDFlZTZGS1pLT1lwNm5pbmNIdmNGTXpLNUpZcXNGRElabzlLSGdEckkwL1NuQmpKT3lSd3Z2QTJiM0dPTURUNXBYOEhSNzhqRG5CdExSSXFxZkZSM1phdTh2bkIwUjRXaWFwdkJ2ZzNmVmV0NWc5NjJpU2FDdHQ1amc1SHJSUmhGTGFSTkk4dlFkSWYwTXA5ckFaRUh2TWtkcjM4UmFVY3VCa1JOcklEdWFDdFZpcC81Z0I4UVVYRDdqQjhLeW9RZ2R3aHpOMzRXY1cyZWJwZWRKSXY2RkRHRndmL2JIUXFQckVHdVYzUEh6VA,,&idLote=1&numPagBus=",
                 link2);
}

#[test]
fn parse_extra_pages_test() {
        let input: &str = r##"<body>
        <div class="paginar">
        <p>Resultados 1 a 500 de 1.572</p>
      </div>
      <div class="paginar2">
        <ul>
          <li>
            <span class="fuera">Está usted en la página de resultados número </span>
            <span class="current">1</span>
          </li>
          <li>
            <a href="subastas_ava.php?accion=Mas&id_busqueda=_YjU3T1REVDZIbFlRRXkwMGhrRC9PZlorZ3RmRDVXL210ZXN4QU1aVWxpL2RjNDVLQldmR2tETFZNWnpmOUcxdXE4a2NBWnhtZ1NHWGxiVGxUdG1mQm1yKzArdk1nOW1IWEs0WTU4VTJnV01iZ1huaEVhSFVqbHplTkp4Nm5DV1RtMFVocDNiYThvbWZ4a1FYcm9lWDJCNFM4bUVHUnRKVWxDdmF5bXZSUVNFY3lGTytyQTlKMFBLUjNVejdVbUU1aW95ZTV3Q2RRbW5kOERKNkpZMDkwY3VkcVhoa3FhWERudXpuc0tSdXVaOTlZNTVwU1F6aWYrbmpWSmVBZERJUg,,-500-500">2</a>
          </li>
          <li>
            <a href="subastas_ava.php?accion=Mas&id_busqueda=_YjU3T1REVDZIbFlRRXkwMGhrRC9PZlorZ3RmRDVXL210ZXN4QU1aVWxpL2RjNDVLQldmR2tETFZNWnpmOUcxdXE4a2NBWnhtZ1NHWGxiVGxUdG1mQm1yKzArdk1nOW1IWEs0WTU4VTJnV01iZ1huaEVhSFVqbHplTkp4Nm5DV1RtMFVocDNiYThvbWZ4a1FYcm9lWDJCNFM4bUVHUnRKVWxDdmF5bXZSUVNFY3lGTytyQTlKMFBLUjNVejdVbUU1aW95ZTV3Q2RRbW5kOERKNkpZMDkwY3VkcVhoa3FhWERudXpuc0tSdXVaOTlZNTVwU1F6aWYrbmpWSmVBZERJUg,,-1000-500">3</a>
          </li>
          <li>
            <a href="subastas_ava.php?accion=Mas&id_busqueda=_YjU3T1REVDZIbFlRRXkwMGhrRC9PZlorZ3RmRDVXL210ZXN4QU1aVWxpL2RjNDVLQldmR2tETFZNWnpmOUcxdXE4a2NBWnhtZ1NHWGxiVGxUdG1mQm1yKzArdk1nOW1IWEs0WTU4VTJnV01iZ1huaEVhSFVqbHplTkp4Nm5DV1RtMFVocDNiYThvbWZ4a1FYcm9lWDJCNFM4bUVHUnRKVWxDdmF5bXZSUVNFY3lGTytyQTlKMFBLUjNVejdVbUU1aW95ZTV3Q2RRbW5kOERKNkpZMDkwY3VkcVhoa3FhWERudXpuc0tSdXVaOTlZNTVwU1F6aWYrbmpWSmVBZERJUg,,-1500-500">4</a>
          </li>
          <li>
            <a href="subastas_ava.php?accion=Mas&id_busqueda=_YjU3T1REVDZIbFlRRXkwMGhrRC9PZlorZ3RmRDVXL210ZXN4QU1aVWxpL2RjNDVLQldmR2tETFZNWnpmOUcxdXE4a2NBWnhtZ1NHWGxiVGxUdG1mQm1yKzArdk1nOW1IWEs0WTU4VTJnV01iZ1huaEVhSFVqbHplTkp4Nm5DV1RtMFVocDNiYThvbWZ4a1FYcm9lWDJCNFM4bUVHUnRKVWxDdmF5bXZSUVNFY3lGTytyQTlKMFBLUjNVejdVbUU1aW95ZTV3Q2RRbW5kOERKNkpZMDkwY3VkcVhoa3FhWERudXpuc0tSdXVaOTlZNTVwU1F6aWYrbmpWSmVBZERJUg,,-500-500"><abbr title="Página">Pág.</abbr> siguiente</a>
          </li>
        </ul>
      </div>
    <div class="paginar">
    <p class="linkSubir">
      <a href="#top">subir</a>
    </p>
  </div>
  <div class="paginar2">
    <ul>
      <li>
        <span class="fuera">Está usted en la página de resultados número </span>
        <span class="current">1</span>
      </li>
      <li>
        <a href="subastas_ava.php?accion=Mas&id_busqueda=_YjU3T1REVDZIbFlRRXkwMGhrRC9PZlorZ3RmRDVXL210ZXN4QU1aVWxpL2RjNDVLQldmR2tETFZNWnpmOUcxdXE4a2NBWnhtZ1NHWGxiVGxUdG1mQm1yKzArdk1nOW1IWEs0WTU4VTJnV01iZ1huaEVhSFVqbHplTkp4Nm5DV1RtMFVocDNiYThvbWZ4a1FYcm9lWDJCNFM4bUVHUnRKVWxDdmF5bXZSUVNFY3lGTytyQTlKMFBLUjNVejdVbUU1aW95ZTV3Q2RRbW5kOERKNkpZMDkwY3VkcVhoa3FhWERudXpuc0tSdXVaOTlZNTVwU1F6aWYrbmpWSmVBZERJUg,,-500-500">2</a>
      </li>
      <li>
        <a href="subastas_ava.php?accion=Mas&id_busqueda=_YjU3T1REVDZIbFlRRXkwMGhrRC9PZlorZ3RmRDVXL210ZXN4QU1aVWxpL2RjNDVLQldmR2tETFZNWnpmOUcxdXE4a2NBWnhtZ1NHWGxiVGxUdG1mQm1yKzArdk1nOW1IWEs0WTU4VTJnV01iZ1huaEVhSFVqbHplTkp4Nm5DV1RtMFVocDNiYThvbWZ4a1FYcm9lWDJCNFM4bUVHUnRKVWxDdmF5bXZSUVNFY3lGTytyQTlKMFBLUjNVejdVbUU1aW95ZTV3Q2RRbW5kOERKNkpZMDkwY3VkcVhoa3FhWERudXpuc0tSdXVaOTlZNTVwU1F6aWYrbmpWSmVBZERJUg,,-1000-500">3</a>
      </li>
      <li>
        <a href="subastas_ava.php?accion=Mas&id_busqueda=_YjU3T1REVDZIbFlRRXkwMGhrRC9PZlorZ3RmRDVXL210ZXN4QU1aVWxpL2RjNDVLQldmR2tETFZNWnpmOUcxdXE4a2NBWnhtZ1NHWGxiVGxUdG1mQm1yKzArdk1nOW1IWEs0WTU4VTJnV01iZ1huaEVhSFVqbHplTkp4Nm5DV1RtMFVocDNiYThvbWZ4a1FYcm9lWDJCNFM4bUVHUnRKVWxDdmF5bXZSUVNFY3lGTytyQTlKMFBLUjNVejdVbUU1aW95ZTV3Q2RRbW5kOERKNkpZMDkwY3VkcVhoa3FhWERudXpuc0tSdXVaOTlZNTVwU1F6aWYrbmpWSmVBZERJUg,,-1500-500">4</a>
      </li>
      <li>
        <a href="subastas_ava.php?accion=Mas&id_busqueda=_YjU3T1REVDZIbFlRRXkwMGhrRC9PZlorZ3RmRDVXL210ZXN4QU1aVWxpL2RjNDVLQldmR2tETFZNWnpmOUcxdXE4a2NBWnhtZ1NHWGxiVGxUdG1mQm1yKzArdk1nOW1IWEs0WTU4VTJnV01iZ1huaEVhSFVqbHplTkp4Nm5DV1RtMFVocDNiYThvbWZ4a1FYcm9lWDJCNFM4bUVHUnRKVWxDdmF5bXZSUVNFY3lGTytyQTlKMFBLUjNVejdVbUU1aW95ZTV3Q2RRbW5kOERKNkpZMDkwY3VkcVhoa3FhWERudXpuc0tSdXVaOTlZNTVwU1F6aWYrbmpWSmVBZERJUg,,-500-500"><abbr title="Página">Pág.</abbr> siguiente</a>
      </li>
    </ul>
  </div></body>"##;
        let pages = parse_extra_pages(input);
        assert_eq!(3, pages.len());
        assert_eq!(&"https://subastas.boe.es/subastas_ava.php?accion=Mas&id_busqueda=_YjU3T1REVDZIbFlRRXkwMGhrRC9PZlorZ3RmRDVXL210ZXN4QU1aVWxpL2RjNDVLQldmR2tETFZNWnpmOUcxdXE4a2NBWnhtZ1NHWGxiVGxUdG1mQm1yKzArdk1nOW1IWEs0WTU4VTJnV01iZ1huaEVhSFVqbHplTkp4Nm5DV1RtMFVocDNiYThvbWZ4a1FYcm9lWDJCNFM4bUVHUnRKVWxDdmF5bXZSUVNFY3lGTytyQTlKMFBLUjNVejdVbUU1aW95ZTV3Q2RRbW5kOERKNkpZMDkwY3VkcVhoa3FhWERudXpuc0tSdXVaOTlZNTVwU1F6aWYrbmpWSmVBZERJUg,,-500-500",
                   pages.get(0).unwrap());
        assert_eq!(&"https://subastas.boe.es/subastas_ava.php?accion=Mas&id_busqueda=_YjU3T1REVDZIbFlRRXkwMGhrRC9PZlorZ3RmRDVXL210ZXN4QU1aVWxpL2RjNDVLQldmR2tETFZNWnpmOUcxdXE4a2NBWnhtZ1NHWGxiVGxUdG1mQm1yKzArdk1nOW1IWEs0WTU4VTJnV01iZ1huaEVhSFVqbHplTkp4Nm5DV1RtMFVocDNiYThvbWZ4a1FYcm9lWDJCNFM4bUVHUnRKVWxDdmF5bXZSUVNFY3lGTytyQTlKMFBLUjNVejdVbUU1aW95ZTV3Q2RRbW5kOERKNkpZMDkwY3VkcVhoa3FhWERudXpuc0tSdXVaOTlZNTVwU1F6aWYrbmpWSmVBZERJUg,,-1000-500",
                   pages.get(1).unwrap());
        assert_eq!(&"https://subastas.boe.es/subastas_ava.php?accion=Mas&id_busqueda=_YjU3T1REVDZIbFlRRXkwMGhrRC9PZlorZ3RmRDVXL210ZXN4QU1aVWxpL2RjNDVLQldmR2tETFZNWnpmOUcxdXE4a2NBWnhtZ1NHWGxiVGxUdG1mQm1yKzArdk1nOW1IWEs0WTU4VTJnV01iZ1huaEVhSFVqbHplTkp4Nm5DV1RtMFVocDNiYThvbWZ4a1FYcm9lWDJCNFM4bUVHUnRKVWxDdmF5bXZSUVNFY3lGTytyQTlKMFBLUjNVejdVbUU1aW95ZTV3Q2RRbW5kOERKNkpZMDkwY3VkcVhoa3FhWERudXpuc0tSdXVaOTlZNTVwU1F6aWYrbmpWSmVBZERJUg,,-1500-500",
                   pages.get(2).unwrap());
}

#[test]
fn parse_asset_auction_test() {
        let input: &str = r#"<div class="bloque" id="idBloqueLote1">
    <div>
      <div class="caja">FINCA URBANA, SITUADA EN VALLADOLID, CALLE MARIANO DE LOS COBOS NUM.90, PLANTA BAJA-1º. FINCA  NUM. 17228</div>
    </div>
    <div>
      <h3>Datos del bien subastado</h3>
      <div>
        <h4>Bien 1 - Inmueble (Vivienda)</h4>
        <table>
          <tr>
            <th>Descripción</th>
            <td>FINCA URBANA SITUADA EN VALLADOLID, CALLE MARIANO DE LOS COBOS NUM.90, BAJO-1º</td>
          </tr>
          <tr>
            <th>Referencia catastral</th>
            <td>
              <a href="consultaDnprc.php?rc=4110202UM5141A0003HH&amp;idSub=SUB-JA-2020-149494" target="_blank" title="Abre datos catastrales en nueva ventana" onclick="return confirm('El Portal de Subastas se va conectar a los servicios web de la Dirección General del Catastro y mostrará la información en una nueva ventana');">4110202UM5141A0003HH</a>
            </td>
          </tr>
          <tr>
            <th>Dirección</th>
            <td>CALLE MARIANO DE LOS COBOS 90</td>
          </tr>
          <tr>
            <th>Código Postal</th>
            <td>47014</td>
          </tr>
          <tr>
            <th>Localidad</th>
            <td>VALLADOLID</td>
          </tr>
          <tr>
            <th>Provincia</th>
            <td>Valladolid</td>
          </tr>
          <tr>
            <th>Vivienda habitual</th>
            <td>Sí</td>
          </tr>
          <tr>
            <th>Situación posesoria</th>
            <td>No consta</td>
          </tr>
          <tr>
            <th>Visitable</th>
            <td>No consta</td>
          </tr>
          <tr>
            <th>Inscripción registral</th>
            <td>CONSTA EN EL EDICTO</td>
          </tr>
        </table>
      </div>
    </div>
  </div>
</div>
</div>"#;

        let mut asset = ConceptTable::new();
        asset.insert(BoeConcept::Header, String::from("BIEN 1 - INMUEBLE (VIVIENDA)"));
        asset.insert(BoeConcept::Description, String::from("FINCA URBANA SITUADA EN VALLADOLID, CALLE MARIANO DE LOS COBOS NUM.90, BAJO-1º"));
        asset.insert(BoeConcept::CatastroReference, String::from("4110202UM5141A0003HH"));
        asset.insert(BoeConcept::Address, String::from("CALLE MARIANO DE LOS COBOS 90"));
        asset.insert(BoeConcept::PostalCode, String::from("47014"));
        asset.insert(BoeConcept::City, String::from("VALLADOLID"));
        asset.insert(BoeConcept::Province, String::from("Valladolid"));
        asset.insert(BoeConcept::PrimaryResidence, String::from("Sí"));
        asset.insert(BoeConcept::OwnerStatus, String::from("No consta"));
        asset.insert(BoeConcept::Visitable, String::from("No consta"));
        asset.insert(BoeConcept::RegisterInscription, String::from("CONSTA EN EL EDICTO"));

        assert_eq!(asset, parse_asset_auction_page(input).unwrap());
}

#[test]
fn parse_management_auction_test() {
        let input: &str = r#"
      <div id="idBloqueDatos2">
      <h3>Datos de la autoridad gestora</h3>
      <table>
        <tr>
          <th>C&#xF3;digo</th>
          <td>3003000230</td>
        </tr>
        <tr>
          <th>Descripci&#xF3;n</th>
          <td>UNIDAD SUBASTAS JUDICIALES MURCIA<strong> (Ministerio de Justicia)</strong></td>
        </tr>
        <tr>
          <th>Direcci&#xF3;n</th>
          <td>AV DE LA JUSTICIA S/N S/N   ; 30011 MURCIA</td>
        </tr>
        <tr>
          <th>Tel&#xE9;fono</th>
          <td>968833360</td>
        </tr>
        <tr>
          <th>Fax</th>
          <td>-</td>
        </tr>
        <tr>
          <th>Correo electr&#xF3;nico</th>
          <td>subastas.murcia@justicia.es</td>
        </tr>
      </table>
    </div>"#;

        let mut mgm = ConceptTable::new();
        mgm.insert(BoeConcept::Code, String::from("3003000230"));
        mgm.insert(BoeConcept::Description, String::from("UNIDAD SUBASTAS JUDICIALES MURCIA (Ministerio de Justicia)"));
        mgm.insert(BoeConcept::Address, String::from("AV DE LA JUSTICIA S/N S/N   ; 30011 MURCIA"));
        mgm.insert(BoeConcept::Telephone, String::from("968833360"));
        mgm.insert(BoeConcept::Fax, String::from("-"));
        mgm.insert(BoeConcept::Email, String::from("subastas.murcia@justicia.es"));

        assert_eq!(mgm, parse_management_auction_page(input).unwrap());
}

#[test]
fn parse_auction_test() {
        let input: &str = r#"
        <div id="idBloqueDatos1">
        <h3>Datos de la subasta</h3>
        <table>
          <tr>
            <th>Identificador</th>
            <td>
              <strong>SUB-NE-2020-465937</strong>
            </td>
          </tr>
          <tr>
            <th>Tipo de subasta</th>
            <td>
              <strong>NOTARIAL EN VENTA EXTRAJUDICIAL</strong>
            </td>
          </tr>
          <tr>
            <th>Fecha de inicio</th>
            <td>14-07-2020 18:00:00 CET  (ISO: 2020-07-14T18:00:00+02:00)</td>
          </tr>
          <tr>
            <th>Fecha de conclusi&#xF3;n</th>
            <td><strong class="destaca">03-08-2020 18:00:00 CET </strong> (ISO: 2020-08-03T18:00:00+02:00)</td>
          </tr>
          <tr>
            <th>Cantidad reclamada</th>
            <td>81.971,57 &#x20AC;</td>
          </tr>
          <tr>
            <th>Lotes</th>
            <td>Sin lotes</td>
          </tr>
          <tr>
            <th>Anuncio BOE</th>
            <td>BOE-B-2020-21708</td>
          </tr>
          <tr>
            <th>Valor subasta</th>
            <td>75.127,00 &#x20AC;</td>
          </tr>
          <tr>
            <th>Tasaci&#xF3;n</th>
            <td>75.127,00 &#x20AC;</td>
          </tr>
          <tr>
            <th>Puja m&#xED;nima</th>
            <td>Sin puja m&#xED;nima</td>
          </tr>
          <tr>
            <th>Tramos entre pujas</th>
            <td>Sin tramos</td>
          </tr>
          <tr>
            <th>Importe del dep&#xF3;sito</th>
            <td>3.756,35 &#x20AC;</td>
          </tr>
        </table>
      </div>
        "#;

        let mut auction = ConceptTable::new();
        auction.insert(BoeConcept::Identifier, String::from("SUB-NE-2020-465937"));
        auction.insert(BoeConcept::AuctionKind, String::from("NOTARIAL EN VENTA EXTRAJUDICIAL"));
        auction.insert(BoeConcept::StartDate, String::from("14-07-2020 18:00:00 CET  (ISO: 2020-07-14T18:00:00+02:00)"));
        auction.insert(BoeConcept::EndDate, String::from("03-08-2020 18:00:00 CET  (ISO: 2020-08-03T18:00:00+02:00)"));
        auction.insert(BoeConcept::ClaimQuantity, String::from("81.971,57 €"));
        auction.insert(BoeConcept::Lots, String::from("Sin lotes"));
        auction.insert(BoeConcept::Notice, String::from("BOE-B-2020-21708"));
        auction.insert(BoeConcept::AuctionValue, String::from("75.127,00 €"));
        auction.insert(BoeConcept::Appraisal, String::from("75.127,00 €"));
        auction.insert(BoeConcept::MinimumBid, String::from("Sin puja mínima"));
        auction.insert(BoeConcept::BidStep, String::from("Sin tramos"));
        auction.insert(BoeConcept::DepositAmount, String::from("3.756,35 €"));

        assert_eq!(auction, parse_main_auction_page(input).unwrap());
}

#[test]
fn parse_result_page_test() {
        let input: &str = r#"
<div class="listadoResult">
  <ul>
    <li class="resultado-busqueda">
      <h3>
        SUBASTA SUB-JA-2020-146153</h3>
      <h4>JUZGADO 1ª INST E INSTRUCC. 6 - TORRELAVEGA</h4>
      <p>
        Expediente: 0048/18</p>
      <p>
        Estado: Celebrándose - [Conclusión prevista: 19/07/2020 a las 16:24:28] 
        </p>
      <p>URBANA, TERRENO EN EL PUEBLO DE COBRECES, AYUNTAMIENTO DE ALFOZ DE LLOREDO, BARRIO DE EL PINO, QUE TIENE UN SUPERCIE DE 134 METROS CUADRADOS. CONTINEN DENTRO DE SÍ UN EDIFICIO QUE OCUPA SOBRE EL TRERRENO 122 METROS CUADRADOS APROXIMADAMENTE. ALBERGA UNA UNICA VIVIENDA UNIFAMILIAR. LA PLANTA BAJA SOBRE LA RASANTE DEL TERRENO SE DESTINA A VIVIENDA , CON UNA SUPERFICIE CONSTRUIDA DE 122 METROS CUADRADOS, APROXIMADAMENTE, QUE SE DISTRIBUYE EN COCINA , BAÑO, DESPACHO, SALÓN, SALA Y TERRAZA; LA PLANTA PRIMERA SE DESTINA A VIVIENDA , CON UNA SUPERFICIE COPNSTRUIDA DE 135 METROS CUADRADOS, APROXIMADAMENTE Y SE RPARTE EN DISTRIBUIDOR, BAÑO, CINCO DORMITORIOS Y TERRAZA, Y LA PLANTA BAJO CUBIERTA, SE DESTINA A ESPACIO DIÁFANO , TIENE UNA SUPERFICIE CONSTRUIDA DE 65 METROS CUADRADOS , APROXIMADAMENTE.</p>
      <a href="./detalleSubasta.php?idSub=SUB-JA-2020-146153&amp;idBus=_SGFOTnU2NVlnSUwvd2czQzBFcHdoUDFlZTZGS1pLT1lwNm5pbmNIdmNGTXpLNUpZcXNGRElabzlLSGdEckkwL1NuQmpKT3lSd3Z2QTJiM0dPTURUNXBYOEhSNzhqRG5CdExSSXFxZkZSM1phdTh2bkIwUjRXaWFwdkJ2ZzNmVmV0NWc5NjJpU2FDdHQ1amc1SHJSUmhGTGFSTkk4dlFkSWYwTXA5ckFaRUh2TWtkcjM4UmFVY3VCa1JOcklEdWFDdFZpcC81Z0I4UVVYRDdqQjhLeW9RZ2R3aHpOMzRXY1cyZWJwZWRKSXY2RkRHRndmL2JIUXFQckVHdVYzUEh6VA,," class="resultado-busqueda-link-defecto" title="Subasta SUB-JA-2020-146153"> </a>
      <ul>
        <li class="puntoHTML">
          <a href="./detalleSubasta.php?idSub=SUB-JA-2020-146153&amp;idBus=_SGFOTnU2NVlnSUwvd2czQzBFcHdoUDFlZTZGS1pLT1lwNm5pbmNIdmNGTXpLNUpZcXNGRElabzlLSGdEckkwL1NuQmpKT3lSd3Z2QTJiM0dPTURUNXBYOEhSNzhqRG5CdExSSXFxZkZSM1phdTh2bkIwUjRXaWFwdkJ2ZzNmVmV0NWc5NjJpU2FDdHQ1amc1SHJSUmhGTGFSTkk4dlFkSWYwTXA5ckFaRUh2TWtkcjM4UmFVY3VCa1JOcklEdWFDdFZpcC81Z0I4UVVYRDdqQjhLeW9RZ2R3aHpOMzRXY1cyZWJwZWRKSXY2RkRHRndmL2JIUXFQckVHdVYzUEh6VA,," class="resultado-busqueda-link-otro" title="Subasta SUB-JA-2020-146153">Más... (Referencia SUB-JA-2020-146153)</a>
        </li>
      </ul>
    </li>
    <li class="resultado-busqueda">
      <h3>
        SUBASTA SUB-JA-2020-149625</h3>
      <h4>JUZGADO 1ª INST E INSTRUCC. 1 - MOTILLA PALANCAR</h4>
      <p>
        Expediente: 0008/17</p>
      <p>
        Estado: Celebrándose - [Conclusión prevista: 20/07/2020 a las 18:00:00] 
        </p>
      <p>FINCA 9557 sita en Villanueva de la Jara, Calle Madrigal nº 3. Inscrita en el Registro de la Propiedad de Motilla del Palancar, tomo 1057, libro 74, folio 95.</p>
      <a href="./detalleSubasta.php?idSub=SUB-JA-2020-149625&amp;idBus=_SGFOTnU2NVlnSUwvd2czQzBFcHdoUDFlZTZGS1pLT1lwNm5pbmNIdmNGTXpLNUpZcXNGRElabzlLSGdEckkwL1NuQmpKT3lSd3Z2QTJiM0dPTURUNXBYOEhSNzhqRG5CdExSSXFxZkZSM1phdTh2bkIwUjRXaWFwdkJ2ZzNmVmV0NWc5NjJpU2FDdHQ1amc1SHJSUmhGTGFSTkk4dlFkSWYwTXA5ckFaRUh2TWtkcjM4UmFVY3VCa1JOcklEdWFDdFZpcC81Z0I4UVVYRDdqQjhLeW9RZ2R3aHpOMzRXY1cyZWJwZWRKSXY2RkRHRndmL2JIUXFQckVHdVYzUEh6VA,," class="resultado-busqueda-link-defecto" title="Subasta SUB-JA-2020-149625"> </a>
      <ul>
        <li class="puntoHTML">
          <a href="./detalleSubasta.php?idSub=SUB-JA-2020-149625&amp;idBus=_SGFOTnU2NVlnSUwvd2czQzBFcHdoUDFlZTZGS1pLT1lwNm5pbmNIdmNGTXpLNUpZcXNGRElabzlLSGdEckkwL1NuQmpKT3lSd3Z2QTJiM0dPTURUNXBYOEhSNzhqRG5CdExSSXFxZkZSM1phdTh2bkIwUjRXaWFwdkJ2ZzNmVmV0NWc5NjJpU2FDdHQ1amc1SHJSUmhGTGFSTkk4dlFkSWYwTXA5ckFaRUh2TWtkcjM4UmFVY3VCa1JOcklEdWFDdFZpcC81Z0I4UVVYRDdqQjhLeW9RZ2R3aHpOMzRXY1cyZWJwZWRKSXY2RkRHRndmL2JIUXFQckVHdVYzUEh6VA,," class="resultado-busqueda-link-otro" title="Subasta SUB-JA-2020-149625">Más... (Referencia SUB-JA-2020-149625)</a>
        </li>
      </ul>
    </li>
    <li class="resultado-busqueda">
      <h3>
        SUBASTA SUB-AT-2020-20R4186001070</h3>
      <h4>U.R. SUBASTAS ANDALUCIA 41 - SEVILLA</h4>
      <p>
        Estado: Celebrándose - [Conclusión prevista: 20/07/2020 a las 18:00:00] 
        </p>
      <p>SOLAR          . CL TAJO 20. 41110 - BOLLULLOS DE LA MITACION (SEVILLA)</p>
      <a href="./detalleSubasta.php?idSub=SUB-AT-2020-20R4186001070&amp;idBus=_SGFOTnU2NVlnSUwvd2czQzBFcHdoUDFlZTZGS1pLT1lwNm5pbmNIdmNGTXpLNUpZcXNGRElabzlLSGdEckkwL1NuQmpKT3lSd3Z2QTJiM0dPTURUNXBYOEhSNzhqRG5CdExSSXFxZkZSM1phdTh2bkIwUjRXaWFwdkJ2ZzNmVmV0NWc5NjJpU2FDdHQ1amc1SHJSUmhGTGFSTkk4dlFkSWYwTXA5ckFaRUh2TWtkcjM4UmFVY3VCa1JOcklEdWFDdFZpcC81Z0I4UVVYRDdqQjhLeW9RZ2R3aHpOMzRXY1cyZWJwZWRKSXY2RkRHRndmL2JIUXFQckVHdVYzUEh6VA,," class="resultado-busqueda-link-defecto" title="Subasta SUB-AT-2020-20R4186001070"> </a>
      <ul>
        <li class="puntoHTML">
          <a href="./detalleSubasta.php?idSub=SUB-AT-2020-20R4186001070&amp;idBus=_SGFOTnU2NVlnSUwvd2czQzBFcHdoUDFlZTZGS1pLT1lwNm5pbmNIdmNGTXpLNUpZcXNGRElabzlLSGdEckkwL1NuQmpKT3lSd3Z2QTJiM0dPTURUNXBYOEhSNzhqRG5CdExSSXFxZkZSM1phdTh2bkIwUjRXaWFwdkJ2ZzNmVmV0NWc5NjJpU2FDdHQ1amc1SHJSUmhGTGFSTkk4dlFkSWYwTXA5ckFaRUh2TWtkcjM4UmFVY3VCa1JOcklEdWFDdFZpcC81Z0I4UVVYRDdqQjhLeW9RZ2R3aHpOMzRXY1cyZWJwZWRKSXY2RkRHRndmL2JIUXFQckVHdVYzUEh6VA,," class="resultado-busqueda-link-otro" title="Subasta SUB-AT-2020-20R4186001070">Más... (Referencia SUB-AT-2020-20R4186001070)</a>
        </li>
      </ul>
    </li>
 </ul>
</div>"#;

        let links = vec![
            (BASE_BOE_URL.to_owned() + "./detalleSubasta.php?idSub=SUB-JA-2020-146153&idBus=_SGFOTnU2NVlnSUwvd2czQzBFcHdoUDFlZTZGS1pLT1lwNm5pbmNIdmNGTXpLNUpZcXNGRElabzlLSGdEckkwL1NuQmpKT3lSd3Z2QTJiM0dPTURUNXBYOEhSNzhqRG5CdExSSXFxZkZSM1phdTh2bkIwUjRXaWFwdkJ2ZzNmVmV0NWc5NjJpU2FDdHQ1amc1SHJSUmhGTGFSTkk4dlFkSWYwTXA5ckFaRUh2TWtkcjM4UmFVY3VCa1JOcklEdWFDdFZpcC81Z0I4UVVYRDdqQjhLeW9RZ2R3aHpOMzRXY1cyZWJwZWRKSXY2RkRHRndmL2JIUXFQckVHdVYzUEh6VA,,", AuctionState::Ongoing),
            (BASE_BOE_URL.to_owned() + "./detalleSubasta.php?idSub=SUB-JA-2020-149625&idBus=_SGFOTnU2NVlnSUwvd2czQzBFcHdoUDFlZTZGS1pLT1lwNm5pbmNIdmNGTXpLNUpZcXNGRElabzlLSGdEckkwL1NuQmpKT3lSd3Z2QTJiM0dPTURUNXBYOEhSNzhqRG5CdExSSXFxZkZSM1phdTh2bkIwUjRXaWFwdkJ2ZzNmVmV0NWc5NjJpU2FDdHQ1amc1SHJSUmhGTGFSTkk4dlFkSWYwTXA5ckFaRUh2TWtkcjM4UmFVY3VCa1JOcklEdWFDdFZpcC81Z0I4UVVYRDdqQjhLeW9RZ2R3aHpOMzRXY1cyZWJwZWRKSXY2RkRHRndmL2JIUXFQckVHdVYzUEh6VA,,", AuctionState::Ongoing),
            (BASE_BOE_URL.to_owned() + "./detalleSubasta.php?idSub=SUB-AT-2020-20R4186001070&idBus=_SGFOTnU2NVlnSUwvd2czQzBFcHdoUDFlZTZGS1pLT1lwNm5pbmNIdmNGTXpLNUpZcXNGRElabzlLSGdEckkwL1NuQmpKT3lSd3Z2QTJiM0dPTURUNXBYOEhSNzhqRG5CdExSSXFxZkZSM1phdTh2bkIwUjRXaWFwdkJ2ZzNmVmV0NWc5NjJpU2FDdHQ1amc1SHJSUmhGTGFSTkk4dlFkSWYwTXA5ckFaRUh2TWtkcjM4UmFVY3VCa1JOcklEdWFDdFZpcC81Z0I4UVVYRDdqQjhLeW9RZ2R3aHpOMzRXY1cyZWJwZWRKSXY2RkRHRndmL2JIUXFQckVHdVYzUEh6VA,,", AuctionState::Ongoing)];

        assert_eq!(links, parse_result_page(input));
}

#[test]
fn read_catastro_dnprc_response_test() {
        let body: &str = r#"<consulta_dnp xmlns:xsd="http://www.w3.org/2001/XMLSchema" xmlns:xsi="http://www.w3.org/2001/XMLSchema-instance" xmlns="http://www.catastro.meh.es/">
<control><cudnp>1</cudnp><cucons>2</cucons><cucul>0</cucul></control>
<bico><bi><idbi><cn>UR</cn><rc><pc1>6344205</pc1><pc2>CF7664S</pc2><car>0001</car><cc1>G</cc1><cc2>P</cc2></rc></idbi><dt>
<loine><cp>43</cp><cm>163</cm></loine><cmc>165</cmc><np>TARRAGONA</np><nm>EL VENDRELL</nm><locs><lous><lourb><dir><cv>2750</cv><tv>CL</tv><nv>BERGUEDA</nv>
<pnp>35</pnp><snp>39</snp></dir><loint><es>1</es><pt>00</pt><pu>A</pu></loint><dp>43700</dp><dm>3</dm></lourb></lous></locs></dt><ldt>CL BERGUEDA 35 N2-39 Es:1 Pl:00 Pt:A 43700 EL VENDRELL (TARRAGONA)</ldt>
<debi><luso>Residencial</luso><sfc>91</sfc><cpt>1,309000</cpt><ant>2005</ant></debi></bi><lcons><cons><lcd>VIVIENDA</lcd><dt><lourb><loint>
<es>1</es><pt>00</pt><pu>A</pu></loint></lourb></dt><dfcons><stl>83</stl></dfcons></cons><cons><lcd>ELEMENTOS COMUNES</lcd><dfcons><stl>8</stl></dfcons></cons>
</lcons></bico></consulta_dnp>"#;

        let result = parse_data_from_catastro_dnprc_response(body, "6344205CF7664S0001GP")
            .unwrap()
            .unwrap();
        assert_eq!(
            r#"https://www1.sedecatastro.gob.es/CYCBienInmueble/OVCConCiud.aspx?UrbRus=UR&RefC=6344205CF7664S0001GP&esBice=&RCBice1=&RCBice2=&DenoBice=&from=OVCBusqueda&pest=rc&RCCompleta=6344205CF7664S0001GP&final=&del=43&mun=165"#,
            &result
        );
}
