//! Route-aware persistence rules.
//!
//! A routes index maps each route name to its content file. Reading and writing
//! files is left to the caller: the functions here resolve paths, decide what a
//! read outcome yields (falling back to empty or default content), and say what
//! a save must write.
use vstd::prelude::*;

use crate::block::{blocks_view, ensure_block_ids, id_ensured, BlockWithId, BlockWithIdView};
use crate::homepage::{default_blocks_view, HomepageData};

verus! {

/// Name of the route whose content is the homepage.
pub const HOMEPAGE_ROUTE: &'static str = "homepage";

/// One entry of the routes index.
#[derive(Debug, Clone, PartialEq, Eq)]
pub struct Route {
    /// URL path of the route; unique within the index.
    pub path: String,
    /// Name of the route, used in admin URLs and to look the route up.
    pub name: String,
    /// Content file paths of the route; only the first is used.
    pub block_ids: Vec<String>,
}

/// The mathematical value of a route.
pub struct RouteView {
    pub path: Seq<char>,
    pub name: Seq<char>,
    pub block_ids: Seq<Seq<char>>,
}

impl View for Route {
    type V = RouteView;

    open spec fn view(&self) -> RouteView {
        RouteView {
            path: self.path@,
            name: self.name@,
            block_ids: self.block_ids@.map_values(|s: String| s@),
        }
    }
}

/// The values of a sequence of routes, in order.
pub open spec fn routes_view(s: Seq<Route>) -> Seq<RouteView> {
    s.map_values(|r: Route| r@)
}

/// Why a route's content could not be located or written.
#[derive(Debug, Clone, PartialEq, Eq)]
pub enum PersistError {
    /// No route of the index has this name.
    RouteNotFound(String),
    /// The route of this name lists no content file.
    NoContentPath(String),
    /// The document could not be serialized; the detail says why.
    SerializationError(String),
    /// The file could not be written; the detail says why.
    IoError(String),
}

/// The text that describes an error.
pub open spec fn error_message(e: PersistError) -> Seq<char> {
    match e {
        PersistError::RouteNotFound(n) => "Route '"@ + n@ + "' not found in routes.json"@,
        PersistError::NoContentPath(n) => "Route '"@ + n@ + "' has no blockIds"@,
        PersistError::SerializationError(d) => d@,
        PersistError::IoError(d) => d@,
    }
}

impl PersistError {
    /// Describes the error for a log line or an error response.
    pub fn message(&self) -> (r: String)
        ensures
            r@ == error_message(*self),
    {
        match self {
            PersistError::RouteNotFound(n) => {
                let mut s = String::from_str("Route '");
                s.append(n.as_str());
                s.append("' not found in routes.json");
                s
            },
            PersistError::NoContentPath(n) => {
                let mut s = String::from_str("Route '");
                s.append(n.as_str());
                s.append("' has no blockIds");
                s
            },
            PersistError::SerializationError(d) => d.clone(),
            PersistError::IoError(d) => d.clone(),
        }
    }
}

/// Index of the first route named `name` among the first `n` routes.
pub open spec fn first_named_within(routes: Seq<Route>, name: Seq<char>, n: int) -> Option<int>
    decreases n,
{
    if n <= 0 {
        None
    } else {
        match first_named_within(routes, name, n - 1) {
            Some(i) => Some(i),
            None => if routes[n - 1].name@ == name {
                Some(n - 1)
            } else {
                None
            },
        }
    }
}

/// Index of the first route named `name`, if any.
pub open spec fn first_route_named(routes: Seq<Route>, name: Seq<char>) -> Option<int> {
    first_named_within(routes, name, routes.len() as int)
}

proof fn lemma_first_named_within_bounds(routes: Seq<Route>, name: Seq<char>, n: int)
    ensures
        match first_named_within(routes, name, n) {
            Some(i) => 0 <= i < n && routes[i].name@ == name && forall|j: int|
                0 <= j < i ==> (#[trigger] routes[j]).name@ != name,
            None => forall|j: int| 0 <= j < n ==> (#[trigger] routes[j]).name@ != name,
        },
    decreases n,
{
    if n > 0 {
        lemma_first_named_within_bounds(routes, name, n - 1);
    }
}

proof fn lemma_first_named_within_stable(routes: Seq<Route>, name: Seq<char>, n: int, m: int)
    requires
        n <= m,
        first_named_within(routes, name, n) is Some,
    ensures
        first_named_within(routes, name, m) == first_named_within(routes, name, n),
    decreases m - n,
{
    if n < m {
        lemma_first_named_within_stable(routes, name, n, m - 1);
    }
}

/// The first route with exactly this name.
///
/// A route is a match when its name equals `name`.
pub fn find_route(routes: &Vec<Route>, name: &str) -> (r: Option<usize>)
    ensures
        match r {
            Some(i) => i < routes.len() && first_route_named(routes@, name@) == Some(i as int),
            None => first_route_named(routes@, name@) is None,
        },
{
    let wanted = String::from_str(name);
    let mut i: usize = 0;
    while i < routes.len()
        invariant
            i <= routes.len(),
            wanted@ == name@,
            first_named_within(routes@, name@, i as int) is None,
        decreases routes.len() - i,
    {
        if routes[i].name == wanted {
            proof {
                lemma_first_named_within_stable(routes@, name@, i + 1, routes.len() as int);
            }
            return Some(i);
        }
        i = i + 1;
    }
    None
}

/// What looking up the content path of `name` in `routes` gives: the first
/// content file of the first route of that name, or the reason there is none.
pub open spec fn resolves_to(
    routes: Seq<Route>,
    name: Seq<char>,
    r: Result<String, PersistError>,
) -> bool {
    match first_route_named(routes, name) {
        None => r matches Err(PersistError::RouteNotFound(n)) && n@ == name,
        Some(i) => if routes[i].block_ids.len() == 0 {
            r matches Err(PersistError::NoContentPath(n)) && n@ == name
        } else {
            r == Ok::<String, PersistError>(routes[i].block_ids[0])
        },
    }
}

/// Resolves a route name to the path of its content file: the first content
/// path of the first route with that name.
pub fn get_content_path(routes: &Vec<Route>, route_name: &str) -> (r: Result<String, PersistError>)
    ensures
        resolves_to(routes@, route_name@, r),
{
    match find_route(routes, route_name) {
        None => Err(PersistError::RouteNotFound(String::from_str(route_name))),
        Some(i) => {
            let route = &routes[i];
            if route.block_ids.len() == 0 {
                Err(PersistError::NoContentPath(String::from_str(route_name)))
            } else {
                Ok(route.block_ids[0].clone())
            }
        },
    }
}

/// What became of resolving a route and reading its content file, as the
/// caller that performs the I/O observed it.
#[derive(Debug, Clone, PartialEq, Eq)]
pub enum ContentRead {
    /// The route name did not resolve to a content file.
    Unresolved(PersistError),
    /// The content file does not exist; expected before the first save.
    Missing,
    /// The file exists but could not be read; the detail says why.
    Unreadable(String),
    /// The file was read but does not hold a content document; the detail says why.
    Corrupt(String),
    /// The file holds this document.
    Parsed(HomepageData),
}

/// Blocks obtained from a read, with the diagnostic to log, if any.
#[derive(Debug, Clone, PartialEq, Eq)]
pub struct LoadedBlocks {
    pub blocks: Vec<BlockWithId>,
    pub warning: Option<String>,
}

/// The blocks that a content read yields: the document's, or none.
pub open spec fn loaded_blocks(read: ContentRead) -> Seq<BlockWithId> {
    match read {
        ContentRead::Parsed(doc) => doc.blocks@,
        _ => Seq::empty(),
    }
}

/// The diagnostic that a content read calls for: none when the document parsed
/// or the file is missing, and otherwise the text of the failure.
pub open spec fn load_warning(read: ContentRead) -> Option<Seq<char>> {
    match read {
        ContentRead::Parsed(_) | ContentRead::Missing => None,
        ContentRead::Unresolved(e) => Some(error_message(e)),
        ContentRead::Unreadable(d) | ContentRead::Corrupt(d) => Some(d@),
    }
}

/// The text of an optional diagnostic.
pub open spec fn warning_view(w: Option<String>) -> Option<Seq<char>> {
    match w {
        Some(s) => Some(s@),
        None => None,
    }
}

/// The content shown for a list of blocks: the list itself, or the default
/// blocks in place of an empty one.
pub open spec fn or_default_view(blocks: Seq<BlockWithId>) -> Seq<BlockWithIdView> {
    if blocks.len() == 0 {
        default_blocks_view()
    } else {
        blocks_view(blocks)
    }
}

/// Turns the outcome of a content read into blocks: the document's blocks
/// when it parsed, and otherwise no blocks. Every failure but a missing file
/// carries a warning.
pub fn load_blocks(read: ContentRead) -> (r: LoadedBlocks)
    ensures
        r.blocks@ == loaded_blocks(read),
        warning_view(r.warning) == load_warning(read),
{
    match read {
        ContentRead::Parsed(doc) => LoadedBlocks { blocks: doc.blocks, warning: None },
        ContentRead::Missing => LoadedBlocks { blocks: Vec::new(), warning: None },
        ContentRead::Unresolved(e) => LoadedBlocks { blocks: Vec::new(), warning: Some(e.message()) },
        ContentRead::Unreadable(d) => LoadedBlocks { blocks: Vec::new(), warning: Some(d) },
        ContentRead::Corrupt(d) => LoadedBlocks { blocks: Vec::new(), warning: Some(d) },
    }
}

/// Substitutes the default blocks for an empty list, so that a page always
/// has content to render. An emptied document and a missing one look alike.
pub fn load_or_default(blocks: Vec<BlockWithId>) -> (r: Vec<BlockWithId>)
    ensures
        blocks_view(r@) == or_default_view(blocks@),
        blocks@.len() > 0 ==> r == blocks,
{
    if blocks.len() == 0 {
        HomepageData::default_blocks()
    } else {
        blocks
    }
}

/// The homepage's blocks from the outcome of reading the homepage route:
/// what `load_blocks` gives, or the default blocks in place of none.
pub fn load_homepage_blocks(read: ContentRead) -> (r: LoadedBlocks)
    ensures
        blocks_view(r.blocks@) == or_default_view(loaded_blocks(read)),
        loaded_blocks(read).len() > 0 ==> r.blocks@ == loaded_blocks(read),
        warning_view(r.warning) == load_warning(read),
{
    let loaded = load_blocks(read);
    LoadedBlocks { blocks: load_or_default(loaded.blocks), warning: loaded.warning }
}

/// A read that finds no content file yields no blocks and no warning, and the
/// page then shows the default blocks.
pub proof fn missing_content_falls_back()
    ensures
        loaded_blocks(ContentRead::Missing).len() == 0,
        load_warning(ContentRead::Missing) is None,
        or_default_view(loaded_blocks(ContentRead::Missing)) == default_blocks_view(),
{
}

/// What a save writes: the whole document, to the route's content file.
#[derive(Debug, Clone, PartialEq, Eq)]
pub struct SavePlan {
    /// Content file to overwrite.
    pub path: String,
    /// Document to write in its place.
    pub document: HomepageData,
}

/// Whether a save plan goes to the content path that `name` resolves to, or
/// carries the error of that resolution.
pub open spec fn saves_to(routes: Seq<Route>, name: Seq<char>, r: Result<SavePlan, PersistError>) -> bool {
    let resolved = match r {
        Ok(plan) => Ok::<String, PersistError>(plan.path),
        Err(e) => Err::<String, PersistError>(e),
    };
    resolves_to(routes, name, resolved)
}

/// Prepares a save of `blocks` for the named route: the document holds exactly
/// these blocks, in order, and replaces the route's content file. A route that
/// does not resolve gives its error and nothing to write.
pub fn save_blocks(routes: &Vec<Route>, route_name: &str, blocks: Vec<BlockWithId>) -> (r: Result<
    SavePlan,
    PersistError,
>)
    ensures
        saves_to(routes@, route_name@, r),
        r matches Ok(plan) ==> plan.document.blocks == blocks,
{
    match get_content_path(routes, route_name) {
        Ok(path) => Ok(SavePlan { path, document: HomepageData::new(blocks) }),
        Err(e) => Err(e),
    }
}

/// Prepares a save of the homepage's blocks.
pub fn save_homepage_blocks(routes: &Vec<Route>, blocks: Vec<BlockWithId>) -> (r: Result<
    SavePlan,
    PersistError,
>)
    ensures
        saves_to(routes@, HOMEPAGE_ROUTE@, r),
        r matches Ok(plan) ==> plan.document.blocks == blocks,
{
    save_blocks(routes, HOMEPAGE_ROUTE, blocks)
}

/// Prepares an update of a route's content from an editor: blocks without an
/// id get a fresh one, then the whole list is saved.
pub fn update_route(routes: &Vec<Route>, route_name: &str, blocks: Vec<BlockWithId>) -> (r: Result<
    SavePlan,
    PersistError,
>)
    ensures
        saves_to(routes@, route_name@, r),
        r matches Ok(plan) ==> {
            &&& plan.document.blocks.len() == blocks.len()
            &&& forall|i: int|
                0 <= i < blocks.len() ==> id_ensured(#[trigger] blocks[i], plan.document.blocks[i])
        },
{
    save_blocks(routes, route_name, ensure_block_ids(blocks))
}

/// A name that no route carries does not resolve: the lookup fails with
/// `RouteNotFound` for that name, and a save gives the same error and nothing
/// to write.
pub proof fn unknown_route_is_not_found(
    routes: Seq<Route>,
    name: Seq<char>,
    path: Result<String, PersistError>,
    save: Result<SavePlan, PersistError>,
)
    requires
        forall|i: int| 0 <= i < routes.len() ==> (#[trigger] routes[i]).name@ != name,
        resolves_to(routes, name, path),
        saves_to(routes, name, save),
    ensures
        path matches Err(PersistError::RouteNotFound(n)) && n@ == name,
        save matches Err(PersistError::RouteNotFound(n)) && n@ == name,
{
    lemma_first_named_within_bounds(routes, name, routes.len() as int);
}

/// The document that a save writes, once read back, yields exactly the saved
/// blocks in their order, with no warning.
pub proof fn saved_document_loads_back(
    routes: Seq<Route>,
    name: Seq<char>,
    blocks: Vec<BlockWithId>,
    plan: SavePlan,
)
    requires
        saves_to(routes, name, Ok(plan)),
        plan.document.blocks == blocks,
    ensures
        loaded_blocks(ContentRead::Parsed(plan.document)) == blocks@,
        load_warning(ContentRead::Parsed(plan.document)) is None,
        resolves_to(routes, name, Ok(plan.path)),
{
}

/// Saving an empty list and reading the written document back yields no
/// blocks and no warning, while the page shows the default blocks: an emptied
/// page looks like one that was never saved.
pub proof fn emptied_content_reads_as_default(blocks: Vec<BlockWithId>, plan: SavePlan)
    requires
        blocks@.len() == 0,
        plan.document.blocks == blocks,
    ensures
        loaded_blocks(ContentRead::Parsed(plan.document)).len() == 0,
        load_warning(ContentRead::Parsed(plan.document)) is None,
        or_default_view(loaded_blocks(ContentRead::Parsed(plan.document))) == default_blocks_view(),
{
}

/// The routes used when the index file is absent, blank or invalid.
pub open spec fn default_routes_view() -> Seq<RouteView> {
    seq![
        RouteView {
            path: "/"@,
            name: "homepage"@,
            block_ids: seq!["data/content/homepage.json"@],
        },
    ]
}

/// The initial routes index: the homepage and its content file.
pub fn default_routes() -> (r: Vec<Route>)
    ensures
        routes_view(r@) == default_routes_view(),
{
    let homepage = Route {
        path: String::from_str("/"),
        name: String::from_str("homepage"),
        block_ids: vec![String::from_str("data/content/homepage.json")],
    };
    let r = vec![homepage];
    assert(r@[0].block_ids@.map_values(|s: String| s@) =~= seq!["data/content/homepage.json"@]);
    assert(routes_view(r@) =~= default_routes_view());
    r
}

/// Names what `str::trim` makes of a text.
pub uninterp spec fn trim_of(s: Seq<char>) -> Seq<char>;

/// Relies on `str::trim`: the text without leading and trailing Unicode
/// whitespace; an empty text stays empty.
#[verifier::external_body]
fn trimmed(s: &str) -> (r: &str)
    ensures
        r@ == trim_of(s@),
        s@.len() == 0 ==> r@.len() == 0,
{
    s.trim()
}

/// Whether an index file's text holds nothing but whitespace.
pub fn is_blank(text: &str) -> (r: bool)
    ensures
        r == (trim_of(text@).len() == 0),
        text@.len() == 0 ==> r,
{
    trimmed(text).is_empty()
}

/// What became of reading and parsing the routes index file.
#[derive(Debug, Clone, PartialEq, Eq)]
pub enum RoutesRead {
    /// The index file does not exist; expected before the first save.
    Missing,
    /// The file exists but could not be read; the detail says why.
    Unreadable(String),
    /// The file holds only whitespace (see `is_blank`).
    Blank,
    /// The file does not hold a list of routes; the detail says why.
    Corrupt(String),
    /// The file holds these routes.
    Parsed(Vec<Route>),
}

/// Routes obtained from a read, with the diagnostic to log, if any.
#[derive(Debug, Clone, PartialEq, Eq)]
pub struct LoadedRoutes {
    pub routes: Vec<Route>,
    pub warning: Option<String>,
}

/// Turns the outcome of reading the routes index into routes: the parsed list
/// when there is one, and otherwise the default routes. Unreadable and invalid
/// files carry a warning; a missing or blank one does not.
pub fn load_routes(read: RoutesRead) -> (r: LoadedRoutes)
    ensures
        match read {
            RoutesRead::Parsed(routes) => r.routes == routes && r.warning is None,
            RoutesRead::Missing | RoutesRead::Blank => routes_view(r.routes@)
                == default_routes_view() && r.warning is None,
            RoutesRead::Unreadable(d) | RoutesRead::Corrupt(d) => routes_view(r.routes@)
                == default_routes_view() && r.warning == Some(d),
        },
{
    match read {
        RoutesRead::Parsed(routes) => LoadedRoutes { routes, warning: None },
        RoutesRead::Missing | RoutesRead::Blank => LoadedRoutes {
            routes: default_routes(),
            warning: None,
        },
        RoutesRead::Unreadable(d) | RoutesRead::Corrupt(d) => LoadedRoutes {
            routes: default_routes(),
            warning: Some(d),
        },
    }
}

} // verus!
