//! The steps of scraping one auction from the BOE portal.
//!
//! Scraping an auction alternates fetching pages with deciding what to do
//! with them.  The decisions stand here as a state machine: it asks for one
//! page at a time (`ScrapeRequest::Fetch`) and, given that page, moves to
//! its next stage.  Whoever runs it performs the fetches.

use vstd::prelude::*;
use crate::parser::{
    asset_table, extra_pages, extra_pages_readable, html_table, lot_links, lot_selector,
    main_auction_links, parse_asset_auction_page, parse_extra_pages, try_parse_extra_pages,
    parse_lot_auction_page_links, try_parse_lot_auction_page, parse_main_auction_links,
    parse_main_auction_page, parse_management_auction_page, texts, ParseError,
};
use crate::types::{
    asset_readable, auction_dates_readable, is_asset_of, is_auction_of, is_management_of, Asset,
    Auction, AuctionState, LotAuctionKind, Management,
};
use crate::util::{
    extract_auction_id_from_link, extract_auction_lot_number_from_link, field_value, has_field,
    link_has_field, AUCTION_ID_LINK_STR, AUCTION_LOT_NUMBER_STR,
};
use crate::text::{owned, str_eq};

verus! {

/// Why an auction could not be scraped.
#[derive(Debug, PartialEq, Eq)]
pub enum ScrapeError {
    /// A page could not be parsed.
    Parse(ParseError),
    /// A start or end date of the auction page does not read as a date.
    UnreadableDate,
    /// An asset block has a header that does not split, or a province that
    /// names no province.
    UnreadableAsset,
    /// A lot link carries no lot number.
    MissingLotNumber,
}

/// What the scrape asks for next.
#[derive(Debug, PartialEq, Eq)]
pub enum ScrapeRequest {
    /// Fetch the page at this address and hand it to `AuctionScrape::receive`.
    Fetch(String),
    /// Nothing more: the scrape is done or has failed.
    Stop,
}

/// Where the scrape of one auction stands.
pub enum ScrapeStage {
    /// Waiting for the auction's main page.
    AuctionPage,
    /// Waiting for the management page.
    ManagementPage {
        /// The auction's main page.
        auction_page: String,
        /// The link to the assets page.
        asset_link: String,
    },
    /// Waiting for the assets page.
    AssetPage {
        /// The auction read so far.
        auction: Auction,
    },
    /// Waiting for the page of the lot at position `next` of `lot_links`.
    LotPage {
        /// The auction.
        auction: Auction,
        /// The links of the lots, in page order.
        lot_links: Vec<String>,
        /// Position of the lot whose page is awaited.
        next: usize,
        /// The assets of the lots before `next`.
        assets: Vec<Asset>,
    },
    /// The auction and its assets.
    Done {
        /// The auction.
        auction: Auction,
        /// Its assets.
        assets: Vec<Asset>,
    },
    /// The scrape failed.
    Failed {
        /// Why.
        error: ScrapeError,
    },
}

/// The scrape of one auction.
pub struct AuctionScrape {
    /// Where it stands.
    pub stage: ScrapeStage,
}

/// The auction that an asset belongs to.
pub open spec fn asset_auction_id(a: Asset) -> Seq<char> {
    match a {
        Asset::Other(o) => o.auction_id@,
        Asset::Property(p) => p.auction_id@,
        Asset::Vehicle(v) => v.auction_id@,
    }
}

/// Whether every asset of `assets` belongs to `auction`.
pub open spec fn assets_of_auction(assets: Seq<Asset>, auction: Auction) -> bool {
    forall|i: int| 0 <= i < assets.len() ==> #[trigger] asset_auction_id(assets[i]) == auction.id@
}

/// Whether `r` asks for the page at `link`.
pub open spec fn fetches(r: ScrapeRequest, link: Seq<char>) -> bool {
    r matches ScrapeRequest::Fetch(l) && l@ == link
}

/// Whether `s` is the failure with parse error `e`.
pub open spec fn failed_parsing(s: ScrapeStage, e: crate::parser::ParseFailure) -> bool {
    s matches ScrapeStage::Failed { error: ScrapeError::Parse(pe) } && pe@ == e
}

impl AuctionScrape {
    /// Whether the stage is consistent: an awaited lot exists, and every
    /// asset gathered belongs to the auction.
    pub open spec fn well_formed(self) -> bool {
        match self.stage {
            ScrapeStage::LotPage { auction, lot_links, next, assets } => {
                &&& next < lot_links@.len()
                &&& assets_of_auction(assets@, auction)
            },
            ScrapeStage::Done { auction, assets } => assets_of_auction(assets@, auction),
            _ => true,
        }
    }

    /// How far the scrape is from its end, by stage: 4 before the auction
    /// page, 3 before the management page, 2 before the assets page, 1
    /// before a lot page, 0 when done or failed.
    pub open spec fn stage_rank(self) -> nat {
        match self.stage {
            ScrapeStage::AuctionPage => 4,
            ScrapeStage::ManagementPage { .. } => 3,
            ScrapeStage::AssetPage { .. } => 2,
            ScrapeStage::LotPage { .. } => 1,
            _ => 0,
        }
    }

    /// The number of lot pages still awaited.
    pub open spec fn lots_left(self) -> nat {
        match self.stage {
            ScrapeStage::LotPage { lot_links, next, .. } => (lot_links@.len() - next) as nat,
            _ => 0,
        }
    }

    /// Whether the scrape still awaits a page.
    pub open spec fn is_running(self) -> bool {
        !(self.stage is Done || self.stage is Failed)
    }

    /// The step from the stage `old` and the page `page` to the stage `new`
    /// and the request `req`: the scrape reads the auction page, the
    /// management page, the assets page and then each lot page in turn.
    pub open spec fn step(old: ScrapeStage, page: Seq<char>, new: ScrapeStage, req: ScrapeRequest) -> bool {
        match old {
            ScrapeStage::AuctionPage => match main_auction_links(page) {
                Err(e) => failed_parsing(new, e) && req is Stop,
                Ok((management_link, asset_link)) => {
                    &&& new matches ScrapeStage::ManagementPage { auction_page, asset_link: a }
                        && auction_page@ == page && a@ == asset_link
                    &&& fetches(req, management_link)
                },
            },
            ScrapeStage::ManagementPage { auction_page, asset_link } => match html_table(
                page,
                "div[id=idBloqueDatos2]"@,
            ) {
                Err(e) => failed_parsing(new, e) && req is Stop,
                Ok(mdata) => match html_table(auction_page@, "div[id=idBloqueDatos1]"@) {
                    Err(e) => failed_parsing(new, e) && req is Stop,
                    Ok(data) => if !auction_dates_readable(data) {
                        new == (ScrapeStage::Failed { error: ScrapeError::UnreadableDate }) && req is Stop
                    } else {
                        &&& new matches ScrapeStage::AssetPage { auction }
                            && is_management_of(auction.management, mdata)
                            && is_auction_of(auction, data, auction.management)
                        &&& fetches(req, asset_link@)
                    },
                },
            },
            ScrapeStage::AssetPage { auction } => if auction.lot_kind == LotAuctionKind::NotApplicable {
                match asset_table(page, "div[id^=idBloqueLote]"@) {
                    Err(e) => failed_parsing(new, e) && req is Stop,
                    Ok(data) => if !asset_readable(data) {
                        new == (ScrapeStage::Failed { error: ScrapeError::UnreadableAsset }) && req is Stop
                    } else {
                        &&& new matches ScrapeStage::Done { auction: a, assets }
                            && a == auction && assets@.len() == 1
                            && is_asset_of(assets@[0], auction.id@, data)
                        &&& req is Stop
                    },
                }
            } else {
                match lot_links(page) {
                    Err(e) => failed_parsing(new, e) && req is Stop,
                    Ok(links) => if links.len() == 0 {
                        &&& new matches ScrapeStage::Done { auction: a, assets }
                            && a == auction && assets@.len() == 0
                        &&& req is Stop
                    } else {
                        &&& new matches ScrapeStage::LotPage { auction: a, lot_links, next, assets }
                            && a == auction && texts(lot_links@) == links && next == 0
                            && assets@.len() == 0
                        &&& fetches(req, links[0])
                    },
                }
            },
            ScrapeStage::LotPage { auction, lot_links, next, assets } => {
                let link = lot_links@[next as int]@;
                if !has_field(link, AUCTION_LOT_NUMBER_STR@) {
                    new == (ScrapeStage::Failed { error: ScrapeError::MissingLotNumber }) && req is Stop
                } else {
                    match asset_table(page, lot_selector(field_value(link, AUCTION_LOT_NUMBER_STR@))) {
                        Err(e) => failed_parsing(new, e) && req is Stop,
                        Ok(data) => if !asset_readable(data) {
                            new == (ScrapeStage::Failed { error: ScrapeError::UnreadableAsset })
                                && req is Stop
                        } else {
                            let gathered = |s: Seq<Asset>|
                                s.len() == assets@.len() + 1 && s.drop_last() == assets@
                                    && is_asset_of(s.last(), auction.id@, data);
                            if next + 1 < lot_links@.len() {
                                &&& new matches ScrapeStage::LotPage {
                                    auction: a,
                                    lot_links: l,
                                    next: n,
                                    assets: s,
                                } && a == auction && l == lot_links && n == next + 1 && gathered(s@)
                                &&& fetches(req, lot_links@[next + 1]@)
                            } else {
                                &&& new matches ScrapeStage::Done { auction: a, assets: s }
                                    && a == auction && gathered(s@)
                                &&& req is Stop
                            }
                        },
                    }
                }
            },
            _ => false,
        }
    }

    /// Starts the scrape of the auction whose page is at `link`: asks for
    /// that page.
    pub fn start(link: &str) -> (r: (AuctionScrape, ScrapeRequest))
        ensures
            r.0.stage is AuctionPage,
            r.0.well_formed(),
            fetches(r.1, link@),
    {
        (AuctionScrape { stage: ScrapeStage::AuctionPage }, ScrapeRequest::Fetch(owned(link)))
    }

    /// Takes the page that the last request asked for and moves on, see
    /// `step`.
    pub fn receive(&mut self, page: &str) -> (r: ScrapeRequest)
        requires
            old(self).well_formed(),
            old(self).is_running(),
        ensures
            final(self).well_formed(),
            AuctionScrape::step(old(self).stage, page@, final(self).stage, r),
            final(self).stage_rank() < old(self).stage_rank() || (final(self).stage_rank()
                == old(self).stage_rank() && final(self).lots_left() < old(self).lots_left()),
            r is Fetch <==> final(self).is_running(),
    {
        let mut stage = ScrapeStage::AuctionPage;
        std::mem::swap(&mut stage, &mut self.stage);
        match stage {
            ScrapeStage::AuctionPage => match parse_main_auction_links(page) {
                Err(e) => {
                    self.stage = ScrapeStage::Failed { error: ScrapeError::Parse(e) };
                    ScrapeRequest::Stop
                },
                Ok((management_link, asset_link)) => {
                    self.stage = ScrapeStage::ManagementPage {
                        auction_page: owned(page),
                        asset_link,
                    };
                    ScrapeRequest::Fetch(management_link)
                },
            },
            ScrapeStage::ManagementPage { auction_page, asset_link } => {
                let mdata = match parse_management_auction_page(page) {
                    Err(e) => {
                        self.stage = ScrapeStage::Failed { error: ScrapeError::Parse(e) };
                        return ScrapeRequest::Stop;
                    },
                    Ok(t) => t,
                };
                let data = match parse_main_auction_page(auction_page.as_str()) {
                    Err(e) => {
                        self.stage = ScrapeStage::Failed { error: ScrapeError::Parse(e) };
                        return ScrapeRequest::Stop;
                    },
                    Ok(t) => t,
                };
                let management = Management::new(&mdata);
                match Auction::try_new(&data, management) {
                    None => {
                        self.stage = ScrapeStage::Failed { error: ScrapeError::UnreadableDate };
                        ScrapeRequest::Stop
                    },
                    Some(auction) => {
                        self.stage = ScrapeStage::AssetPage { auction };
                        ScrapeRequest::Fetch(asset_link)
                    },
                }
            },
            ScrapeStage::AssetPage { auction } => {
                if auction.lot_kind == LotAuctionKind::NotApplicable {
                    match parse_asset_auction_page(page) {
                        Err(e) => {
                            self.stage = ScrapeStage::Failed { error: ScrapeError::Parse(e) };
                            ScrapeRequest::Stop
                        },
                        Ok(data) => match Asset::try_new(auction.id.as_str(), &data) {
                            None => {
                                self.stage = ScrapeStage::Failed {
                                    error: ScrapeError::UnreadableAsset,
                                };
                                ScrapeRequest::Stop
                            },
                            Some(asset) => {
                                proof {
                                    lemma_asset_of_auction(asset, auction, data@);
                                }
                                let mut assets: Vec<Asset> = Vec::new();
                                assets.push(asset);
                                self.stage = ScrapeStage::Done { auction, assets };
                                ScrapeRequest::Stop
                            },
                        },
                    }
                } else {
                    match parse_lot_auction_page_links(page) {
                        Err(e) => {
                            self.stage = ScrapeStage::Failed { error: ScrapeError::Parse(e) };
                            ScrapeRequest::Stop
                        },
                        Ok(links) => {
                            if links.len() == 0 {
                                self.stage = ScrapeStage::Done { auction, assets: Vec::new() };
                                ScrapeRequest::Stop
                            } else {
                                let first = owned(links[0].as_str());
                                self.stage = ScrapeStage::LotPage {
                                    auction,
                                    lot_links: links,
                                    next: 0,
                                    assets: Vec::new(),
                                };
                                ScrapeRequest::Fetch(first)
                            }
                        },
                    }
                }
            },
            ScrapeStage::LotPage { auction, lot_links, next, mut assets } => {
                assert(next < lot_links.len());
                if !link_has_field(lot_links[next].as_str(), AUCTION_LOT_NUMBER_STR) {
                    self.stage = ScrapeStage::Failed { error: ScrapeError::MissingLotNumber };
                    return ScrapeRequest::Stop;
                }
                let data = match extract_auction_lot_number_from_link(lot_links[next].as_str()) {
                    Ok(lot_id) => match try_parse_lot_auction_page(page, lot_id) {
                        None => {
                            self.stage = ScrapeStage::Failed {
                                error: ScrapeError::Parse(ParseError::InvalidSelector),
                            };
                            return ScrapeRequest::Stop;
                        },
                        Some(Err(e)) => {
                            self.stage = ScrapeStage::Failed { error: ScrapeError::Parse(e) };
                            return ScrapeRequest::Stop;
                        },
                        Some(Ok(t)) => t,
                    },
                    Err(e) => {
                        self.stage = ScrapeStage::Failed { error: ScrapeError::Parse(e) };
                        return ScrapeRequest::Stop;
                    },
                };
                match Asset::try_new(auction.id.as_str(), &data) {
                    None => {
                        self.stage = ScrapeStage::Failed { error: ScrapeError::UnreadableAsset };
                        ScrapeRequest::Stop
                    },
                    Some(asset) => {
                        proof {
                            lemma_asset_of_auction(asset, auction, data@);
                        }
                        let ghost before = assets@;
                        assets.push(asset);
                        assert(assets@.drop_last() =~= before);
                        if next + 1 < lot_links.len() {
                            let following = owned(lot_links[next + 1].as_str());
                            self.stage = ScrapeStage::LotPage {
                                auction,
                                lot_links,
                                next: next + 1,
                                assets,
                            };
                            ScrapeRequest::Fetch(following)
                        } else {
                            self.stage = ScrapeStage::Done { auction, assets };
                            ScrapeRequest::Stop
                        }
                    },
                }
            },
            ScrapeStage::Done { auction, assets } => {
                self.stage = ScrapeStage::Done { auction, assets };
                ScrapeRequest::Stop
            },
            ScrapeStage::Failed { error } => {
                self.stage = ScrapeStage::Failed { error };
                ScrapeRequest::Stop
            },
        }
    }

    /// The auction and its assets, or why the scrape failed.
    pub fn into_result(self) -> (r: Result<(Auction, Vec<Asset>), ScrapeError>)
        requires
            !self.is_running(),
        ensures
            self.stage matches ScrapeStage::Done { auction, assets } ==> r matches Ok((a, s))
                && a == auction && s == assets,
            self.stage matches ScrapeStage::Failed { error } ==> r == Err::<
                (Auction, Vec<Asset>),
                ScrapeError,
            >(error),
    {
        match self.stage {
            ScrapeStage::Done { auction, assets } => Ok((auction, assets)),
            ScrapeStage::Failed { error } => Err(error),
            _ => Err(ScrapeError::MissingLotNumber),
        }
    }
}

/// An asset built for an auction belongs to it.
proof fn lemma_asset_of_auction(a: Asset, auction: Auction, data: Map<crate::concepts::BoeConcept, Seq<char>>)
    requires
        asset_readable(data),
        is_asset_of(a, auction.id@, data),
    ensures
        asset_auction_id(a) == auction.id@,
{
}

// ---------------------------------------------------------------------------
// Fetching
// ---------------------------------------------------------------------------

/// Why a page could not be fetched.
#[derive(Debug, PartialEq, Eq)]
pub struct FetchError {
    /// What the client reports.
    pub message: String,
}

/// Http client to make requests to BOE website.
pub trait HttpClient {
    /// Get the content of the url
    fn get_url(&self, target: &str) -> Result<String, FetchError>;
}

/// Why an auction could not be retrieved: a page could not be fetched, or
/// the pages did not give an auction.
#[derive(Debug, PartialEq, Eq)]
pub enum RetrieveError {
    /// A page could not be fetched.
    Fetch(FetchError),
    /// The pages did not give an auction.
    Scrape(ScrapeError),
}

/// Whether `stages` and `requests` are the course of the scrape of the
/// auction at `link` when it is handed `pages` in turn: it starts waiting
/// for the auction page and asking for `link`, each page answers a request
/// to fetch, and each page moves the scrape one `AuctionScrape::step` on.
pub open spec fn scrape_run(
    link: Seq<char>,
    pages: Seq<Seq<char>>,
    stages: Seq<ScrapeStage>,
    requests: Seq<ScrapeRequest>,
) -> bool {
    &&& stages.len() == pages.len() + 1
    &&& requests.len() == pages.len() + 1
    &&& stages[0] is AuctionPage
    &&& fetches(requests[0], link)
    &&& forall|i: int| 0 <= i < pages.len() ==> #[trigger] run_step(pages, stages, requests, i)
}

/// Whether the page at position `i` of `pages` answers a request to fetch
/// and moves the scrape from the stage at `i` to the next one.
pub open spec fn run_step(
    pages: Seq<Seq<char>>,
    stages: Seq<ScrapeStage>,
    requests: Seq<ScrapeRequest>,
    i: int,
) -> bool {
    &&& requests[i] is Fetch
    &&& AuctionScrape::step(stages[i], pages[i], stages[i + 1], requests[i + 1])
}

/// What a scrape that is done gathered, by the auction's lot kind: an
/// auction without lots has exactly one asset; a lot auction has one asset
/// per lot link of its assets page, the third page read.
pub open spec fn gathered_per_lot(pages: Seq<Seq<char>>, auction: Auction, count: nat) -> bool {
    if auction.lot_kind == LotAuctionKind::NotApplicable {
        count == 1
    } else {
        &&& pages.len() >= 3
        &&& lot_links(pages[2]) is Ok
        &&& count == lot_links(pages[2])->Ok_0.len()
    }
}

/// Where the stage at position `n` of a scrape run stands: the auction,
/// management and assets pages are read first, in that order; a lot stage
/// comes after them, for a lot auction, with one asset per lot already
/// read; a scrape that is done gathered one asset per lot (see
/// `gathered_per_lot`).
pub open spec fn run_shape(pages: Seq<Seq<char>>, stage: ScrapeStage, n: int) -> bool {
    match stage {
        ScrapeStage::AuctionPage => n == 0,
        ScrapeStage::ManagementPage { .. } => n == 1,
        ScrapeStage::AssetPage { .. } => n == 2,
        ScrapeStage::LotPage { auction, lot_links: ls, next, assets } => {
            &&& n >= 3
            &&& auction.lot_kind != LotAuctionKind::NotApplicable
            &&& lot_links(pages[2]) == Ok::<Seq<Seq<char>>, crate::parser::ParseFailure>(
                texts(ls@),
            )
            &&& next < ls@.len()
            &&& assets@.len() == next
        },
        ScrapeStage::Done { auction, assets } => gathered_per_lot(pages, auction, assets@.len()),
        ScrapeStage::Failed { .. } => true,
    }
}

/// Each stage of a scrape run stands where `run_shape` says.
proof fn lemma_run_shape(
    link: Seq<char>,
    pages: Seq<Seq<char>>,
    stages: Seq<ScrapeStage>,
    requests: Seq<ScrapeRequest>,
    n: int,
)
    requires
        scrape_run(link, pages, stages, requests),
        0 <= n <= pages.len(),
    ensures
        run_shape(pages, stages[n], n),
    decreases n,
{
    if n > 0 {
        lemma_run_shape(link, pages, stages, requests, n - 1);
        assert(run_step(pages, stages, requests, n - 1));
    }
}

/// A scrape that is done gathered one asset for an auction without lots,
/// and one asset per lot link of the assets page for a lot auction.
pub proof fn lemma_assets_per_lot(
    link: Seq<char>,
    pages: Seq<Seq<char>>,
    stages: Seq<ScrapeStage>,
    requests: Seq<ScrapeRequest>,
)
    requires
        scrape_run(link, pages, stages, requests),
    ensures
        stages.last() matches ScrapeStage::Done { auction, assets } ==> gathered_per_lot(
            pages,
            auction,
            assets@.len(),
        ),
{
    lemma_run_shape(link, pages, stages, requests, pages.len() as int);
}

/// Retrieve an auction information from an auction link: fetches with
/// `client` the pages that the scrape of the auction asks for, the
/// auction's page first, until it is done or fails.  Whatever the client
/// returns, the assets retrieved belong to the auction, and the result is
/// the end of a `scrape_run` on the pages it returned: the auction and
/// assets of the scrape that is done, the error of the scrape that failed,
/// or, where a page was asked for and the client failed, its error.
pub fn process_auction_link<C: HttpClient>(client: &C, link: &(String, AuctionState)) -> (r: Result<
    (Auction, Vec<Asset>),
    RetrieveError,
>)
    ensures
        r matches Ok((auction, assets)) ==> assets_of_auction(assets@, auction),
        r matches Ok((auction, assets)) ==> exists|
            pages: Seq<Seq<char>>,
            stages: Seq<ScrapeStage>,
            requests: Seq<ScrapeRequest>,
        |
            #[trigger] scrape_run(link.0@, pages, stages, requests) && stages.last() == (
            ScrapeStage::Done { auction, assets }),
        r matches Err(RetrieveError::Scrape(e)) ==> exists|
            pages: Seq<Seq<char>>,
            stages: Seq<ScrapeStage>,
            requests: Seq<ScrapeRequest>,
        |
            #[trigger] scrape_run(link.0@, pages, stages, requests) && stages.last() == (
            ScrapeStage::Failed { error: e }),
        r matches Err(RetrieveError::Fetch(_)) ==> exists|
            pages: Seq<Seq<char>>,
            stages: Seq<ScrapeStage>,
            requests: Seq<ScrapeRequest>,
        |
            #[trigger] scrape_run(link.0@, pages, stages, requests) && requests.last() is Fetch,
{
    let (mut scrape, mut request) = AuctionScrape::start(link.0.as_str());
    let ghost mut pages: Seq<Seq<char>> = Seq::empty();
    let ghost mut stages: Seq<ScrapeStage> = seq![scrape.stage];
    let ghost mut requests: Seq<ScrapeRequest> = seq![request];
    loop
        invariant
            scrape.well_formed(),
            request is Fetch <==> scrape.is_running(),
            scrape_run(link.0@, pages, stages, requests),
            stages.last() == scrape.stage,
            requests.last() == request,
        ensures
            scrape.well_formed(),
            !scrape.is_running(),
            scrape_run(link.0@, pages, stages, requests),
            stages.last() == scrape.stage,
        decreases scrape.stage_rank(), scrape.lots_left(),
    {
        let url = match request {
            ScrapeRequest::Fetch(url) => url,
            ScrapeRequest::Stop => {
                break;
            },
        };
        let page = match client.get_url(url.as_str()) {
            Ok(page) => page,
            Err(e) => {
                assert(scrape_run(link.0@, pages, stages, requests) && requests.last() is Fetch);
                return Err(RetrieveError::Fetch(e));
            },
        };
        let ghost before = scrape.stage;
        let ghost asked = request;
        request = scrape.receive(page.as_str());
        proof {
            let old_pages = pages;
            let old_stages = stages;
            let old_requests = requests;
            pages = pages.push(page@);
            stages = stages.push(scrape.stage);
            requests = requests.push(request);
            assert(stages[0] == old_stages[0]);
            assert(requests[0] == old_requests[0]);
            assert forall|i: int| 0 <= i < pages.len() implies #[trigger] run_step(
                pages,
                stages,
                requests,
                i,
            ) by {
                if i < old_pages.len() {
                    assert(run_step(old_pages, old_stages, old_requests, i));
                    assert(old_pages[i] == pages[i]);
                    assert(old_stages[i] == stages[i]);
                    assert(old_stages[i + 1] == stages[i + 1]);
                    assert(old_requests[i] == requests[i]);
                    assert(old_requests[i + 1] == requests[i + 1]);
                } else {
                    assert(i == old_pages.len());
                    assert(stages[i] == before);
                    assert(requests[i] == asked);
                    assert(pages[i] == page@);
                    assert(stages[i + 1] == scrape.stage);
                    assert(requests[i + 1] == request);
                }
            }
        }
    }
    match scrape.into_result() {
        Ok(done) => Ok(done),
        Err(e) => Err(RetrieveError::Scrape(e)),
    }
}

// ---------------------------------------------------------------------------
// Result pages
// ---------------------------------------------------------------------------

/// The addresses of all result pages: the main page's own address first,
/// then those of the pages after it (see `parse_extra_pages`).
pub fn result_page_urls(main_url: &str, main_page: &str) -> (r: Vec<String>)
    requires
        extra_pages_readable(main_page@),
    ensures
        texts(r@) == seq![main_url@] + extra_pages(main_page@),
{
    let extra = parse_extra_pages(main_page);
    let mut result: Vec<String> = Vec::new();
    result.push(owned(main_url));
    assert(texts(result@) =~= seq![main_url@] + texts(extra@).take(0));
    let mut i: usize = 0;
    while i < extra.len()
        invariant
            i <= extra@.len(),
            texts(result@) == seq![main_url@] + texts(extra@).take(i as int),
        decreases extra@.len() - i,
    {
        let ghost before = result@;
        result.push(owned(extra[i].as_str()));
        assert(texts(result@) =~= texts(before).push(extra@[i as int]@));
        assert(texts(extra@).take(i + 1) =~= texts(extra@).take(i as int).push(extra@[i as int]@));
        i = i + 1;
        assert(texts(result@) =~= seq![main_url@] + texts(extra@).take(i as int));
    }
    assert(texts(extra@).take(i as int) =~= texts(extra@));
    result
}

/// The addresses of all result pages (see `result_page_urls`), or `None`
/// where the main page does not give the number of result pages.
pub fn try_result_page_urls(main_url: &str, main_page: &str) -> (r: Option<Vec<String>>)
    ensures
        r is Some == extra_pages_readable(main_page@),
        r matches Some(v) ==> texts(v@) == seq![main_url@] + extra_pages(main_page@),
{
    if try_parse_extra_pages(main_page).is_some() {
        Some(result_page_urls(main_url, main_page))
    } else {
        None
    }
}

/// Whether every link of `links` carries an auction identifier.
pub open spec fn links_with_ids(links: Seq<(String, AuctionState)>) -> bool {
    forall|i: int| 0 <= i < links.len() ==> has_field(#[trigger] links[i].0@, AUCTION_ID_LINK_STR@)
}

/// The auction identifier of a result link.
pub open spec fn link_id(link: (String, AuctionState)) -> Seq<char> {
    field_value(link.0@, AUCTION_ID_LINK_STR@)
}

/// The identifier and state of each result link whose auction is among
/// `followed`, in page order.
pub open spec fn state_updates(links: Seq<(String, AuctionState)>, followed: Seq<Seq<char>>) -> Seq<
    (Seq<char>, AuctionState),
>
    decreases links.len(),
{
    if links.len() == 0 {
        Seq::empty()
    } else {
        let rest = state_updates(links.drop_last(), followed);
        if followed.contains(link_id(links.last())) {
            rest.push((link_id(links.last()), links.last().1))
        } else {
            rest
        }
    }
}

/// Whether the auction of a result link is among `followed`.
pub open spec fn is_followed(followed: Seq<Seq<char>>, link: (String, AuctionState)) -> bool {
    followed.contains(link_id(link))
}

/// A result link as a state update: its auction identifier and state.
pub open spec fn update_of(link: (String, AuctionState)) -> (Seq<char>, AuctionState) {
    (link_id(link), link.1)
}

/// The state updates of a result page are exactly its links whose auction
/// is followed, kept in page order, each as its identifier and the state
/// the page shows: the filter of the links by the followed identifiers.
/// So there is one update per followed link, and none for another link.
pub proof fn lemma_state_updates_filter(links: Seq<(String, AuctionState)>, followed: Seq<Seq<char>>)
    ensures
        state_updates(links, followed) == links.filter(
            |l: (String, AuctionState)| is_followed(followed, l),
        ).map_values(|l: (String, AuctionState)| update_of(l)),
        state_updates(links, followed).len() == links.filter(
            |l: (String, AuctionState)| is_followed(followed, l),
        ).len(),
    decreases links.len(),
{
    let p = |l: (String, AuctionState)| is_followed(followed, l);
    let f = |l: (String, AuctionState)| update_of(l);
    if links.len() > 0 {
        lemma_state_updates_filter(links.drop_last(), followed);
        let rest = links.drop_last().filter(p);
        links.drop_last().lemma_filter_push(links.last(), p);
        assert(links.drop_last().push(links.last()) =~= links);
        assert(links.filter(p) == if p(links.last()) {
            rest.push(links.last())
        } else {
            rest
        });
        if p(links.last()) {
            assert(rest.push(links.last()).map_values(f) =~= rest.map_values(f).push(f(links.last())));
        }
    } else {
        reveal(Seq::filter);
        assert(links.filter(p) =~= links);
        assert(links.filter(p).map_values(f) =~= Seq::<(Seq<char>, AuctionState)>::empty());
    }
}

/// Whether `id` is one of `followed`.
fn is_tracked(followed: &Vec<String>, id: &str) -> (r: bool)
    ensures
        r == crate::parser::texts(followed@).contains(id@),
{
    let mut i: usize = 0;
    while i < followed.len()
        invariant
            i <= followed@.len(),
            forall|j: int| 0 <= j < i ==> followed@[j]@ != id@,
        decreases followed@.len() - i,
    {
        if str_eq(followed[i].as_str(), id) {
            assert(texts(followed@)[i as int] == id@);
            return true;
        }
        i = i + 1;
    }
    assert forall|j: int| 0 <= j < texts(followed@).len() implies texts(followed@)[j] != id@ by {}
    false
}

/// The state updates that a result page gives for the auctions followed:
/// for each of its links (see `parse_result_page`) whose auction identifier
/// is among `followed`, that identifier and the state the page shows.
pub fn auction_state_updates(links: &Vec<(String, AuctionState)>, followed: &Vec<String>) -> (r: Vec<
    (String, AuctionState),
>)
    requires
        links_with_ids(links@),
    ensures
        crate::parser::entries(r@) == state_updates(links@, texts(followed@)),
{
    let mut result: Vec<(String, AuctionState)> = Vec::new();
    let mut i: usize = 0;
    while i < links.len()
        invariant
            i <= links@.len(),
            links_with_ids(links@),
            crate::parser::entries(result@) == state_updates(links@.take(i as int), texts(followed@)),
        decreases links@.len() - i,
    {
        assert(has_field(links@[i as int].0@, AUCTION_ID_LINK_STR@));
        let id = match extract_auction_id_from_link(links[i].0.as_str()) {
            Ok(id) => id,
            Err(_) => "",
        };
        let ghost before = result@;
        assert(links@.take(i + 1).drop_last() =~= links@.take(i as int));
        if is_tracked(followed, id) {
            result.push((owned(id), links[i].1));
            assert(crate::parser::entries(result@) =~= crate::parser::entries(before).push(
                (id@, links@[i as int].1),
            ));
        }
        i = i + 1;
    }
    assert(links@.take(i as int) =~= links@);
    result
}

// ---------------------------------------------------------------------------
// Tallies
// ---------------------------------------------------------------------------

/// What became of one auction link of a result page.
#[derive(Debug, Clone, Copy, PartialEq, Eq, Structural)]
pub enum LinkOutcome {
    /// The auction had been stored before; it was skipped.
    AlreadyProcessed,
    /// The auction was scraped and stored.
    Stored,
    /// The auction could not be scraped.
    Failed,
}

/// The counts of a result page's links by outcome: stored, failed, and
/// already processed.
#[derive(Debug, Clone, Copy, PartialEq, Eq, Structural)]
pub struct PageTally {
    /// Auctions scraped and stored.
    pub stored: u32,
    /// Auctions that could not be scraped.
    pub failed: u32,
    /// Auctions skipped as processed before.
    pub already_processed: u32,
}

impl PageTally {
    /// No link counted yet.
    pub fn new() -> (r: PageTally)
        ensures
            r == (PageTally { stored: 0, failed: 0, already_processed: 0 }),
    {
        PageTally { stored: 0, failed: 0, already_processed: 0 }
    }

    /// Number of links counted.
    pub open spec fn total(self) -> int {
        self.stored + self.failed + self.already_processed
    }

    /// Counts one more link with outcome `o`.
    pub fn record(&mut self, o: LinkOutcome)
        requires
            old(self).total() < u32::MAX,
        ensures
            final(self).stored == old(self).stored + if o == LinkOutcome::Stored {
                1int
            } else {
                0int
            },
            final(self).failed == old(self).failed + if o == LinkOutcome::Failed {
                1int
            } else {
                0int
            },
            final(self).already_processed == old(self).already_processed + if o
                == LinkOutcome::AlreadyProcessed {
                1int
            } else {
                0int
            },
    {
        match o {
            LinkOutcome::Stored => self.stored = self.stored + 1,
            LinkOutcome::Failed => self.failed = self.failed + 1,
            LinkOutcome::AlreadyProcessed => self.already_processed = self.already_processed + 1,
        }
    }
}

// ---------------------------------------------------------------------------
// Storing the auctions of a result page
// ---------------------------------------------------------------------------

/// What the pass over a result page's links waits for.
#[derive(Debug, Clone, Copy, PartialEq, Eq, Structural)]
pub enum PagePhase {
    /// Whether the store holds the auction of the current link.
    Asking,
    /// Whether the auction of the current link could be retrieved.
    Retrieving,
    /// The auction retrieved to be stored.
    Inserting,
    /// Nothing more: every link was gone through, or one had no identifier.
    Done,
}

/// What the pass over a result page's links asks for next.
#[derive(Debug, Clone, PartialEq, Eq)]
pub enum PageRequest {
    /// Ask the store whether it holds the auction with this identifier, and
    /// hand the answer to `PageScrape::receive`.
    AskStored(String),
    /// Retrieve the auction of the link at this position (see
    /// `process_auction_link`), and hand `receive` whether that succeeded.
    Retrieve(usize),
    /// Store the auction just retrieved, with its management and assets, and
    /// call `receive`; where the store fails, the pass stops with its error.
    Insert,
    /// Every link was gone through; these are the counts.
    Finished(PageTally),
    /// The link at this position carries no auction identifier; the pass
    /// stops with that error.
    MissingAuctionId(usize),
}

/// The pass over the auction links of a result page: each auction that the
/// store holds already is skipped, each other one is retrieved and, where
/// that succeeds, stored; the outcomes are counted.
pub struct PageScrape {
    /// The links of the result page, in page order.
    pub links: Vec<(String, AuctionState)>,
    /// Position of the current link.
    pub next: usize,
    /// The counts of the links before `next`.
    pub tally: PageTally,
    /// What the pass waits for.
    pub phase: PagePhase,
}

/// The counts `t` with one more link of outcome `o`.
pub open spec fn counted(t: PageTally, o: LinkOutcome) -> PageTally {
    match o {
        LinkOutcome::AlreadyProcessed => PageTally {
            already_processed: (t.already_processed + 1) as u32,
            ..t
        },
        LinkOutcome::Stored => PageTally { stored: (t.stored + 1) as u32, ..t },
        LinkOutcome::Failed => PageTally { failed: (t.failed + 1) as u32, ..t },
    }
}

/// Whether `new` and `r` move the pass on to the link at `next`, with the
/// counts `tally`: past the last link the pass is done with these counts; a
/// link without an auction identifier ends it with that error; any other
/// link's identifier is asked of the store.
pub open spec fn moved_to(
    links: Seq<(String, AuctionState)>,
    next: int,
    tally: PageTally,
    new: PageScrape,
    r: PageRequest,
) -> bool {
    &&& new.links@ == links
    &&& new.next == next
    &&& new.tally == tally
    &&& if next >= links.len() {
        new.phase == PagePhase::Done && r == PageRequest::Finished(tally)
    } else if !has_field(links[next].0@, AUCTION_ID_LINK_STR@) {
        new.phase == PagePhase::Done && r == PageRequest::MissingAuctionId(next as usize)
    } else {
        new.phase == PagePhase::Asking && (r matches PageRequest::AskStored(id) && id@ == link_id(
            links[next],
        ))
    }
}

impl PageScrape {
    /// Whether the pass is consistent: it counted exactly the links before
    /// the current one, which exists while the pass is not done, and the
    /// counts fit in a `u32`.
    pub open spec fn well_formed(self) -> bool {
        &&& self.links@.len() < u32::MAX
        &&& self.tally.total() == self.next
        &&& self.next <= self.links@.len()
        &&& self.phase != PagePhase::Done ==> self.next < self.links@.len() && has_field(
            self.links@[self.next as int].0@,
            AUCTION_ID_LINK_STR@,
        )
    }

    /// The step from the pass `old` with the answer `answer` to the pass
    /// `new` and the request `r`.  Asked whether the auction is stored: yes
    /// counts the link as already processed and moves on, no asks to
    /// retrieve it.  Asked whether it was retrieved: no counts the link as
    /// failed and moves on, yes asks to store it.  Once it is stored, the
    /// link counts as stored and the pass moves on.
    pub open spec fn step(old: PageScrape, answer: bool, new: PageScrape, r: PageRequest) -> bool {
        let links = old.links@;
        match old.phase {
            PagePhase::Asking => if answer {
                moved_to(links, old.next + 1, counted(old.tally, LinkOutcome::AlreadyProcessed), new, r)
            } else {
                &&& new.links@ == links
                &&& new.next == old.next
                &&& new.tally == old.tally
                &&& new.phase == PagePhase::Retrieving
                &&& r == PageRequest::Retrieve(old.next)
            },
            PagePhase::Retrieving => if answer {
                &&& new.links@ == links
                &&& new.next == old.next
                &&& new.tally == old.tally
                &&& new.phase == PagePhase::Inserting
                &&& r == PageRequest::Insert
            } else {
                moved_to(links, old.next + 1, counted(old.tally, LinkOutcome::Failed), new, r)
            },
            PagePhase::Inserting => moved_to(
                links,
                old.next + 1,
                counted(old.tally, LinkOutcome::Stored),
                new,
                r,
            ),
            PagePhase::Done => false,
        }
    }

    /// Moves the pass on to the link at `next`, see `moved_to`.
    fn move_to(&mut self, next: usize, tally: PageTally) -> (r: PageRequest)
        requires
            next <= old(self).links@.len() < u32::MAX,
            tally.total() == next,
        ensures
            moved_to(old(self).links@, next as int, tally, *final(self), r),
            final(self).well_formed(),
    {
        self.next = next;
        self.tally = tally;
        if next >= self.links.len() {
            self.phase = PagePhase::Done;
            return PageRequest::Finished(tally);
        }
        if !link_has_field(self.links[next].0.as_str(), AUCTION_ID_LINK_STR) {
            self.phase = PagePhase::Done;
            return PageRequest::MissingAuctionId(next);
        }
        let id = match extract_auction_id_from_link(self.links[next].0.as_str()) {
            Ok(id) => id,
            Err(_) => "",
        };
        self.phase = PagePhase::Asking;
        PageRequest::AskStored(owned(id))
    }

    /// Starts the pass over `links`, the links of a result page (see
    /// `parse_result_page`): moves to the first link.
    pub fn start(links: Vec<(String, AuctionState)>) -> (r: (PageScrape, PageRequest))
        requires
            links@.len() < u32::MAX,
        ensures
            moved_to(links@, 0, (PageTally { stored: 0, failed: 0, already_processed: 0 }), r.0, r.1),
            r.0.well_formed(),
    {
        let mut scrape = PageScrape {
            links,
            next: 0,
            tally: PageTally::new(),
            phase: PagePhase::Done,
        };
        let r = scrape.move_to(0, PageTally::new());
        (scrape, r)
    }

    /// Whether the pass still waits for an answer.
    pub fn is_running(&self) -> (r: bool)
        ensures
            r == (self.phase != PagePhase::Done),
    {
        self.phase != PagePhase::Done
    }

    /// Takes the answer to the last request (see `PageRequest`) and moves
    /// on, see `step`.
    pub fn receive(&mut self, answer: bool) -> (r: PageRequest)
        requires
            old(self).well_formed(),
            old(self).phase != PagePhase::Done,
        ensures
            PageScrape::step(*old(self), answer, *final(self), r),
            final(self).well_formed(),
    {
        let next = self.next;
        let mut tally = self.tally;
        match self.phase {
            PagePhase::Asking => {
                if answer {
                    tally.record(LinkOutcome::AlreadyProcessed);
                    self.move_to(next + 1, tally)
                } else {
                    self.phase = PagePhase::Retrieving;
                    PageRequest::Retrieve(next)
                }
            },
            PagePhase::Retrieving => {
                if answer {
                    self.phase = PagePhase::Inserting;
                    PageRequest::Insert
                } else {
                    tally.record(LinkOutcome::Failed);
                    self.move_to(next + 1, tally)
                }
            },
            PagePhase::Inserting => {
                tally.record(LinkOutcome::Stored);
                self.move_to(next + 1, tally)
            },
            PagePhase::Done => PageRequest::Finished(tally),
        }
    }
}

/// Each step of the pass over a result page's links counts the outcome it
/// settles, and only that: a stored auction counts as already processed and
/// is not retrieved; an auction not stored is asked to be retrieved, at the
/// current link; a failed retrieval counts as failed; a stored retrieval
/// counts as stored; and the pass moves to the next link exactly when it
/// counts one.
pub proof fn lemma_page_step_outcomes(old: PageScrape, answer: bool, new: PageScrape, r: PageRequest)
    requires
        old.well_formed(),
        PageScrape::step(old, answer, new, r),
    ensures
        old.phase == PagePhase::Asking && answer ==> new.tally.already_processed
            == old.tally.already_processed + 1 && new.tally.stored == old.tally.stored
            && new.tally.failed == old.tally.failed && !(r is Retrieve),
        old.phase == PagePhase::Asking && !answer ==> new.tally == old.tally && r
            == PageRequest::Retrieve(old.next),
        old.phase == PagePhase::Retrieving && !answer ==> new.tally.failed == old.tally.failed + 1
            && new.tally.stored == old.tally.stored && new.tally.already_processed
            == old.tally.already_processed,
        old.phase == PagePhase::Retrieving && answer ==> new.tally == old.tally && r
            == PageRequest::Insert,
        old.phase == PagePhase::Inserting ==> new.tally.stored == old.tally.stored + 1
            && new.tally.failed == old.tally.failed && new.tally.already_processed
            == old.tally.already_processed,
        new.links@ == old.links@,
        new.next == old.next + 1 <==> new.tally.total() == old.tally.total() + 1,
        new.next == old.next <==> new.tally == old.tally,
{
}

} // verus!
