use howlongtobeat::model::{Game, SearchRequest, SearchResponse};

#[test]
fn test_game_urls() {
    let game = Game {
        game_id: 12345,
        game_image: "test_image.jpg".to_string(),
        ..Default::default()
    };

    assert_eq!(game.game_url(), "https://howlongtobeat.com/game/12345");
    assert_eq!(game.image_url(), "https://howlongtobeat.com/games/test_image.jpg");
}

#[test]
fn test_game_default() {
    let game = Game::default();

    assert_eq!(game.game_id, 0);
    assert_eq!(game.game_name, "");
    assert_eq!(game.comp_main, 0);
}

#[test]
fn test_search_response_default() {
    let response = SearchResponse::default();

    assert_eq!(response.count, 0);
    assert_eq!(response.data.len(), 0);
    assert_eq!(response.title, "");
}

#[test]
fn game_url_of_small_and_large_ids() {
    let mut game = Game::default();
    assert_eq!(game.game_url(), "https://howlongtobeat.com/game/0");
    game.game_id = 7;
    assert_eq!(game.game_url(), "https://howlongtobeat.com/game/7");
    game.game_id = 10;
    assert_eq!(game.game_url(), "https://howlongtobeat.com/game/10");
    game.game_id = u64::MAX;
    assert_eq!(game.game_url(), "https://howlongtobeat.com/game/18446744073709551615");
}

#[test]
fn image_url_with_empty_slug() {
    let game = Game::default();
    assert_eq!(game.image_url(), "https://howlongtobeat.com/games/");
}

#[test]
fn default_game_is_blank() {
    let g = Game::default();
    assert_eq!(g.count, 0);
    assert_eq!(g.game_alias, "");
    assert_eq!(g.game_type, "");
    assert_eq!(g.game_image, "");
    assert_eq!(g.comp_plus, 0);
    assert_eq!(g.comp_100, 0);
    assert_eq!(g.comp_all, 0);
    assert_eq!(g.review_score, 0);
    assert_eq!(g.profile_dev, "");
    assert_eq!(g.profile_platform, "");
    assert_eq!(g.release_world, 0);
}

#[test]
fn default_request_matches_site_shape() {
    let r = SearchRequest::default();
    assert_eq!(r.search_type, "games");
    assert!(r.search_terms.is_empty());
    assert_eq!(r.search_page, 1);
    assert_eq!(r.size, 20);
    assert_eq!(r.search_options.games.userId, 0);
    assert_eq!(r.search_options.games.platform, "");
    assert_eq!(r.search_options.games.sort_category, "popular");
    assert_eq!(r.search_options.games.range_category, "main");
    assert_eq!(r.search_options.games.range_time.min, None);
    assert_eq!(r.search_options.games.range_time.max, None);
    assert_eq!(r.search_options.games.gameplay.genre, "");
    assert_eq!(r.search_options.games.modifier, "");
    assert_eq!(r.search_options.users.sort_category, "postcount");
    assert_eq!(r.search_options.filter, "");
    assert_eq!(r.search_options.sort, 0);
    assert_eq!(r.search_options.randomizer, 0);
}

#[test]
fn request_for_query_holds_one_term() {
    let r = SearchRequest::for_query("zelda");
    assert_eq!(r.search_terms, vec!["zelda".to_string()]);
    assert_eq!(r.search_type, "games");
    assert_eq!(r.search_page, 1);
    assert_eq!(r.size, 20);
    assert_eq!(r.search_options.users.sort_category, "postcount");
}
