//! The data model: the search request sent to the site, the response it
//! returns, and the game records in it. Completion times are in seconds.
use vstd::prelude::*;

verus! {

/// The site's base address.
pub const BASE_URL: &'static str = "https://howlongtobeat.com";

/// Outbound search payload. Every field but `search_terms` keeps the value
/// that the site expects.
#[derive(Debug, Clone, PartialEq, Eq)]
pub struct SearchRequest {
    pub search_type: String,
    pub search_terms: Vec<String>,
    pub search_page: u32,
    pub size: u32,
    pub search_options: SearchOptions,
}

#[derive(Debug, Clone, PartialEq, Eq)]
pub struct SearchOptions {
    pub games: GameSearchOptions,
    pub users: UserSearchOptions,
    pub filter: String,
    pub sort: u32,
    pub randomizer: u32,
}

#[allow(non_snake_case)]
#[derive(Debug, Clone, PartialEq, Eq)]
pub struct GameSearchOptions {
    pub userId: u32,
    pub platform: String,
    pub sort_category: String,
    pub range_category: String,
    pub range_time: RangeTime,
    pub gameplay: Gameplay,
    pub modifier: String,
}

#[derive(Debug, Clone, PartialEq, Eq)]
pub struct UserSearchOptions {
    pub sort_category: String,
}

#[derive(Debug, Clone, Copy, PartialEq, Eq, Structural)]
pub struct RangeTime {
    pub min: Option<u32>,
    pub max: Option<u32>,
}

#[derive(Debug, Clone, PartialEq, Eq)]
pub struct Gameplay {
    pub perspective: String,
    pub flow: String,
    pub genre: String,
}

/// Paging metadata and the game records of one search.
#[allow(non_snake_case)]
#[derive(Debug, Clone, PartialEq, Eq)]
pub struct SearchResponse {
    pub color: String,
    pub title: String,
    pub category: String,
    pub count: u32,
    pub pageCurrent: u32,
    pub pageTotal: u32,
    pub pageSize: u32,
    pub data: Vec<Game>,
}

/// One game record. Completion times (`comp_*`) are in seconds.
#[derive(Debug, Clone, PartialEq, Eq)]
pub struct Game {
    pub count: u32,
    pub game_id: u64,
    pub game_name: String,
    pub game_name_date: u64,
    pub game_alias: String,
    pub game_type: String,
    pub game_image: String,
    pub comp_lvl_combine: u32,
    pub comp_lvl_sp: u32,
    pub comp_lvl_co: u32,
    pub comp_lvl_mp: u32,
    pub comp_lvl_spd: u32,
    pub comp_main: u32,
    pub comp_plus: u32,
    pub comp_100: u32,
    pub comp_all: u32,
    pub comp_main_count: u32,
    pub comp_plus_count: u32,
    pub comp_100_count: u32,
    pub comp_all_count: u32,
    pub invested_co: u32,
    pub invested_mp: u32,
    pub invested_co_count: u32,
    pub invested_mp_count: u32,
    pub count_comp: u32,
    pub count_speedrun: u32,
    pub count_backlog: u32,
    pub count_review: u32,
    pub review_score: u32,
    pub count_playing: u32,
    pub count_retired: u32,
    pub profile_dev: String,
    pub profile_popular: u32,
    pub profile_steam: u32,
    pub profile_platform: String,
    pub release_world: u64,
}

/// Every numeric field of `g` is 0 and every string field is empty.
pub open spec fn is_blank_game(g: Game) -> bool {
    &&& g.count == 0 && g.game_id == 0 && g.game_name_date == 0
    &&& g.game_name@.len() == 0 && g.game_alias@.len() == 0
    &&& g.game_type@.len() == 0 && g.game_image@.len() == 0
    &&& g.comp_lvl_combine == 0 && g.comp_lvl_sp == 0 && g.comp_lvl_co == 0
    &&& g.comp_lvl_mp == 0 && g.comp_lvl_spd == 0
    &&& g.comp_main == 0 && g.comp_plus == 0 && g.comp_100 == 0 && g.comp_all == 0
    &&& g.comp_main_count == 0 && g.comp_plus_count == 0
    &&& g.comp_100_count == 0 && g.comp_all_count == 0
    &&& g.invested_co == 0 && g.invested_mp == 0
    &&& g.invested_co_count == 0 && g.invested_mp_count == 0
    &&& g.count_comp == 0 && g.count_speedrun == 0 && g.count_backlog == 0
    &&& g.count_review == 0 && g.review_score == 0
    &&& g.count_playing == 0 && g.count_retired == 0
    &&& g.profile_dev@.len() == 0 && g.profile_popular == 0 && g.profile_steam == 0
    &&& g.profile_platform@.len() == 0 && g.release_world == 0
}

impl Default for Game {
    fn default() -> (r: Self)
        ensures
            is_blank_game(r),
    {
        Game {
            count: 0,
            game_id: 0,
            game_name: String::new(),
            game_name_date: 0,
            game_alias: String::new(),
            game_type: String::new(),
            game_image: String::new(),
            comp_lvl_combine: 0,
            comp_lvl_sp: 0,
            comp_lvl_co: 0,
            comp_lvl_mp: 0,
            comp_lvl_spd: 0,
            comp_main: 0,
            comp_plus: 0,
            comp_100: 0,
            comp_all: 0,
            comp_main_count: 0,
            comp_plus_count: 0,
            comp_100_count: 0,
            comp_all_count: 0,
            invested_co: 0,
            invested_mp: 0,
            invested_co_count: 0,
            invested_mp_count: 0,
            count_comp: 0,
            count_speedrun: 0,
            count_backlog: 0,
            count_review: 0,
            review_score: 0,
            count_playing: 0,
            count_retired: 0,
            profile_dev: String::new(),
            profile_popular: 0,
            profile_steam: 0,
            profile_platform: String::new(),
            release_world: 0,
        }
    }
}

impl Default for SearchResponse {
    fn default() -> (r: Self)
        ensures
            r.color@.len() == 0 && r.title@.len() == 0 && r.category@.len() == 0,
            r.count == 0 && r.pageCurrent == 0 && r.pageTotal == 0 && r.pageSize == 0,
            r.data@.len() == 0,
    {
        SearchResponse {
            color: String::new(),
            title: String::new(),
            category: String::new(),
            count: 0,
            pageCurrent: 0,
            pageTotal: 0,
            pageSize: 0,
            data: Vec::new(),
        }
    }
}

impl Default for RangeTime {
    fn default() -> (r: Self)
        ensures
            r.min is None && r.max is None,
    {
        RangeTime { min: None, max: None }
    }
}

impl Default for Gameplay {
    fn default() -> (r: Self)
        ensures
            r.perspective@.len() == 0 && r.flow@.len() == 0 && r.genre@.len() == 0,
    {
        Gameplay { perspective: String::new(), flow: String::new(), genre: String::new() }
    }
}

/// The game-scoped options that the site expects: any platform, sorted by
/// popularity, ranged over the main-story time.
pub open spec fn is_default_game_options(o: GameSearchOptions) -> bool {
    &&& o.userId == 0
    &&& o.platform@.len() == 0
    &&& o.sort_category@ == "popular"@
    &&& o.range_category@ == "main"@
    &&& o.range_time.min is None && o.range_time.max is None
    &&& o.gameplay.perspective@.len() == 0 && o.gameplay.flow@.len() == 0
    &&& o.gameplay.genre@.len() == 0
    &&& o.modifier@.len() == 0
}

/// The options that the site expects: the game defaults, users sorted by
/// post count, no filter, sort or randomizer.
pub open spec fn is_default_options(o: SearchOptions) -> bool {
    &&& is_default_game_options(o.games)
    &&& o.users.sort_category@ == "postcount"@
    &&& o.filter@.len() == 0
    &&& o.sort == 0 && o.randomizer == 0
}

impl Default for GameSearchOptions {
    fn default() -> (r: Self)
        ensures
            is_default_game_options(r),
    {
        GameSearchOptions {
            userId: 0,
            platform: String::new(),
            sort_category: String::from_str("popular"),
            range_category: String::from_str("main"),
            range_time: RangeTime::default(),
            gameplay: Gameplay::default(),
            modifier: String::new(),
        }
    }
}

impl Default for UserSearchOptions {
    fn default() -> (r: Self)
        ensures
            r.sort_category@ == "postcount"@,
    {
        UserSearchOptions { sort_category: String::from_str("postcount") }
    }
}

impl Default for SearchOptions {
    fn default() -> (r: Self)
        ensures
            is_default_options(r),
    {
        SearchOptions {
            games: GameSearchOptions::default(),
            users: UserSearchOptions::default(),
            filter: String::new(),
            sort: 0,
            randomizer: 0,
        }
    }
}

impl Default for SearchRequest {
    fn default() -> (r: Self)
        ensures
            r.search_type@ == "games"@,
            r.search_terms@.len() == 0,
            r.search_page == 1,
            r.size == 20,
            is_default_options(r.search_options),
    {
        SearchRequest {
            search_type: String::from_str("games"),
            search_terms: Vec::new(),
            search_page: 1,
            size: 20,
            search_options: SearchOptions::default(),
        }
    }
}

impl SearchRequest {
    /// The request for one search term, every other field at its default.
    pub fn for_query(term: &str) -> (r: Self)
        ensures
            r.search_type@ == "games"@,
            r.search_terms@.len() == 1,
            r.search_terms@[0]@ == term@,
            r.search_page == 1,
            r.size == 20,
            is_default_options(r.search_options),
    {
        let mut r = SearchRequest::default();
        r.search_terms.push(term.to_owned());
        r
    }
}

/// The decimal digit for `d`.
pub open spec fn digit_char(d: nat) -> char {
    if d < 10 {
        ((d + 48) as u8) as char
    } else {
        '?'
    }
}

/// The decimal notation of `n`, without leading zeros.
pub open spec fn decimal(n: nat) -> Seq<char>
    decreases n,
{
    if n < 10 {
        seq![digit_char(n)]
    } else {
        decimal(n / 10).push(digit_char(n % 10))
    }
}

fn digit_str(d: u64) -> (r: &'static str)
    requires
        d < 10,
    ensures
        r@ == seq![digit_char(d as nat)],
{
    let r = if d == 0 {
        "0"
    } else if d == 1 {
        "1"
    } else if d == 2 {
        "2"
    } else if d == 3 {
        "3"
    } else if d == 4 {
        "4"
    } else if d == 5 {
        "5"
    } else if d == 6 {
        "6"
    } else if d == 7 {
        "7"
    } else if d == 8 {
        "8"
    } else {
        "9"
    };
    proof {
        reveal_strlit("0");
        reveal_strlit("1");
        reveal_strlit("2");
        reveal_strlit("3");
        reveal_strlit("4");
        reveal_strlit("5");
        reveal_strlit("6");
        reveal_strlit("7");
        reveal_strlit("8");
        reveal_strlit("9");
    }
    assert(r@ =~= seq![digit_char(d as nat)]);
    r
}

/// Appends the decimal notation of `n` to `s`.
fn push_decimal(s: &mut String, n: u64)
    ensures
        final(s)@ == old(s)@ + decimal(n as nat),
    decreases n,
{
    if n >= 10 {
        push_decimal(s, n / 10);
    }
    s.append(digit_str(n % 10));
    assert(final(s)@ =~= old(s)@ + decimal(n as nat));
}

impl Game {
    /// The address of the game's cover image.
    pub fn image_url(&self) -> (r: String)
        ensures
            r@ == BASE_URL@ + "/games/"@ + self.game_image@,
    {
        let mut s = String::from_str(BASE_URL);
        s.append("/games/");
        s.append(self.game_image.as_str());
        s
    }

    /// The address of the game's page.
    pub fn game_url(&self) -> (r: String)
        ensures
            r@ == BASE_URL@ + "/game/"@ + decimal(self.game_id as nat),
    {
        let mut s = String::from_str(BASE_URL);
        s.append("/game/");
        push_decimal(&mut s, self.game_id);
        s
    }
}

} // verus!
