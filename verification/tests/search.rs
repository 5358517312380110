use foodfetch::recipe::{MealCacheEntry, Recipe, Recipes};
use foodfetch::search::{
    capitalize_each_word, closest_match, distance_of, fallback, pick_closest, threshold_of, Query,
    Resolution, Resolver, SearchFailure, Stage, Step, TransportError,
};

fn entry(name: &str) -> MealCacheEntry {
    MealCacheEntry {
        id: String::from("1"),
        name: String::from(name),
        thumb: String::from("https://img.example.org/t.jpg"),
        instructions: None,
        category: None,
        area: None,
        source: None,
        youtube: None,
        ing1: Some(String::from("Salt")),
        ing2: None,
        meas1: Some(String::from("1 tsp")),
        meas2: None,
    }
}

fn corpus() -> Vec<MealCacheEntry> {
    vec![entry("Spaghetti Carbonara"), entry("Beef Wellington"), entry("Carbonara")]
}

fn record(name: &str) -> Recipe {
    let mut recipe = Recipe::default();
    recipe.name = Some(String::from(name));
    recipe
}

fn no_answer() -> Result<Recipes, TransportError> {
    Ok(Recipes { meals: None })
}

fn asked(step: Step) -> (Resolver, String) {
    match step {
        Step::Ask { resolver, keyword } => (resolver, keyword),
        Step::Done(outcome) => panic!("the search ended early: {:?}", outcome),
        Step::Consult { query } => panic!("the corpus is asked for {:?}", query),
    }
}

fn matched(step: Step) -> Resolution {
    match step {
        Step::Done(resolution) => resolution,
        Step::Ask { keyword, .. } => panic!("the search goes on with {:?}", keyword),
        Step::Consult { query } => panic!("the corpus is asked for {:?}", query),
    }
}

fn consulted(step: Step) -> Query {
    match step {
        Step::Consult { query } => query,
        Step::Ask { keyword, .. } => panic!("the search goes on with {:?}", keyword),
        Step::Done(resolution) => panic!("the search ended with {:?}", resolution),
    }
}

fn search(keyword: &str, corpus: &Vec<MealCacheEntry>) -> Result<Resolution, SearchFailure> {
    let mut step = Resolver::begin(keyword);
    let mut asked = 0;
    loop {
        match step {
            Step::Ask { resolver, .. } => {
                asked += 1;
                assert!(asked <= 2);
                step = resolver.advance(no_answer());
            },
            Step::Consult { query } => {
                assert_eq!(asked, 2);
                return fallback(&query, corpus);
            },
            Step::Done(resolution) => return Ok(resolution),
        }
    }
}

#[test]
fn capitalize_each_word_of_a_name() {
    assert_eq!(capitalize_each_word("spaghetti carbonara"), "Spaghetti Carbonara");
    assert_eq!(capitalize_each_word("beef"), "Beef");
    assert_eq!(capitalize_each_word("a b c"), "A B C");
}

#[test]
fn capitalize_each_word_drops_surplus_white_space() {
    assert_eq!(capitalize_each_word("  beef \t  stew\n"), "Beef Stew");
    assert_eq!(capitalize_each_word(""), "");
    assert_eq!(capitalize_each_word("   "), "");
}

#[test]
fn capitalize_each_word_keeps_the_rest_of_a_word() {
    assert_eq!(capitalize_each_word("mcDONALD bLT"), "McDONALD BLT");
    assert_eq!(capitalize_each_word("Already There"), "Already There");
    assert_eq!(capitalize_each_word("3 eggs"), "3 Eggs");
}

#[test]
fn capitalize_each_word_beyond_ascii() {
    assert_eq!(capitalize_each_word("\u{e9}clair au caf\u{e9}"), "\u{c9}clair Au Caf\u{e9}");
    assert_eq!(capitalize_each_word("\u{df}a"), "SSa");
    assert_eq!(capitalize_each_word("a\u{a0}b\u{3000}c"), "A B C");
}

#[test]
fn query_has_three_forms() {
    let query = Query::new("  Spaghetti CARBONARA \n");
    assert_eq!(query.original, "Spaghetti CARBONARA");
    assert_eq!(query.lowercase, "spaghetti carbonara");
    assert_eq!(query.capitalized, "Spaghetti Carbonara");
}

#[test]
fn query_of_nothing_is_empty() {
    let query = Query::new(" \t ");
    assert_eq!(query.original, "");
    assert_eq!(query.lowercase, "");
    assert_eq!(query.capitalized, "");
}

#[test]
fn distance_counts_edits() {
    assert_eq!(distance_of("kitten", "sitting"), 3);
    assert_eq!(distance_of("carbonara", "carbonaraa"), 1);
    assert_eq!(distance_of("", "abc"), 3);
    assert_eq!(distance_of("abc", ""), 3);
    assert_eq!(distance_of("same", "same"), 0);
    assert_eq!(distance_of("flaw", "lawn"), 2);
}

#[test]
fn distance_ignores_the_case_of_the_name() {
    assert_eq!(distance_of("Carbonara", "carbonara"), 0);
    assert_eq!(distance_of("CARBONARA", "carbonaraa"), 1);
    assert_eq!(distance_of("carbonara", "Carbonara"), 1);
}

#[test]
fn distance_counts_characters_not_bytes() {
    assert_eq!(distance_of("\u{e9}clair", "eclair"), 1);
}

#[test]
fn threshold_is_half_the_longer_length() {
    assert_eq!(threshold_of("Spaghetti Carbonara", "carbonaraa"), 9);
    assert_eq!(threshold_of("Pie", "carbonaraa"), 5);
    assert_eq!(threshold_of("abc", "abc"), 1);
    assert_eq!(threshold_of("", ""), 0);
    assert_eq!(threshold_of("a", ""), 0);
    assert_eq!(threshold_of("\u{e9}\u{e9}", "a"), 2);
}

#[test]
fn pick_takes_the_closest_accepted_candidate() {
    assert_eq!(pick_closest(&vec![(4, 9), (2, 9), (3, 9)]), Some(1));
    assert_eq!(pick_closest(&vec![(1, 9)]), Some(0));
    assert_eq!(pick_closest(&vec![(9, 9)]), Some(0));
    assert_eq!(pick_closest(&vec![(0, 0)]), Some(0));
}

#[test]
fn pick_takes_the_first_of_equally_close_candidates() {
    assert_eq!(pick_closest(&vec![(5, 9), (2, 4), (2, 9), (2, 2)]), Some(1));
}

#[test]
fn pick_passes_over_candidates_beyond_their_threshold() {
    assert_eq!(pick_closest(&vec![(3, 2), (4, 5)]), Some(1));
    assert_eq!(pick_closest(&vec![(1, 0), (10, 9), (6, 5)]), None);
    assert_eq!(pick_closest(&Vec::new()), None);
}

#[test]
fn closest_match_measures_the_names() {
    assert_eq!(closest_match(&corpus(), "carbonaraa"), Some(2));
    assert_eq!(closest_match(&corpus(), "beef wellingtom"), Some(1));
    assert_eq!(closest_match(&corpus(), "spagetti carbonara"), Some(0));
    assert_eq!(closest_match(&corpus(), "zzzzzqqqqq"), None);
    assert_eq!(closest_match(&Vec::new(), "carbonara"), None);
}

#[test]
fn closest_match_is_the_same_every_time() {
    let twins = vec![entry("Carbonarb"), entry("Carbonarc"), entry("Carbonara")];
    for _ in 0..5 {
        assert_eq!(closest_match(&twins, "carbonarx"), Some(0));
        assert_eq!(closest_match(&twins, "carbonara"), Some(2));
    }
}

#[test]
fn search_begins_with_the_keyword_in_lower_case() {
    let (resolver, keyword) = asked(Resolver::begin("  Spaghetti CARBONARA "));
    assert_eq!(keyword, "spaghetti carbonara");
    assert_eq!(resolver.stage, Stage::Exact);
    assert_eq!(resolver.query.original, "Spaghetti CARBONARA");
}

#[test]
fn exact_match_ends_the_search() {
    let (resolver, keyword) = asked(Resolver::begin("carbonara"));
    assert_eq!(keyword, "carbonara");
    let answer = Ok(Recipes { meals: Some(vec![record("Spaghetti Carbonara")]) });
    let resolution = matched(resolver.advance(answer));
    assert!(resolution.advisory().is_empty());
    match resolution {
        Resolution::Exact { recipes } => {
            assert_eq!(recipes.len(), 1);
            assert_eq!(recipes[0].name, Some(String::from("Spaghetti Carbonara")));
        },
        Resolution::Substituted { .. } => panic!("the corpus was consulted"),
    }
}

#[test]
fn exact_match_keeps_all_the_recipes_of_the_answer() {
    let (resolver, _) = asked(Resolver::begin("pie"));
    let answer = Ok(Recipes { meals: Some(vec![record("Apple Pie"), record("Fish Pie")]) });
    let recipes = matched(resolver.advance(answer)).into_recipes();
    assert_eq!(recipes.len(), 2);
    assert_eq!(recipes[1].name, Some(String::from("Fish Pie")));
}

#[test]
fn capitalized_keyword_is_tried_second() {
    let (resolver, _) = asked(Resolver::begin("beef WELLINGTON"));
    let (resolver, keyword) = asked(resolver.advance(no_answer()));
    assert_eq!(keyword, "Beef Wellington");
    assert_eq!(resolver.stage, Stage::Capitalized);
    let answer = Ok(Recipes { meals: Some(vec![record("Beef Wellington")]) });
    let resolution = matched(resolver.advance(answer));
    assert!(matches!(resolution, Resolution::Exact { .. }));
}

#[test]
fn corpus_is_consulted_after_two_searches_without_a_match() {
    let (resolver, _) = asked(Resolver::begin(" Carbonaraa "));
    let (resolver, _) = asked(resolver.advance(no_answer()));
    let query = consulted(resolver.advance(no_answer()));
    assert_eq!(query.original, "Carbonaraa");
    assert_eq!(query.lowercase, "carbonaraa");
    assert_eq!(query.capitalized, "Carbonaraa");
}

#[test]
fn transport_failure_counts_as_no_match() {
    let (resolver, _) = asked(Resolver::begin("carbonaraa"));
    let failure = Err(TransportError { message: String::from("connection refused") });
    let (resolver, keyword) = asked(resolver.advance(failure));
    assert_eq!(keyword, "Carbonaraa");
    let failure = Err(TransportError { message: String::from("connection refused") });
    let query = consulted(resolver.advance(failure));
    let resolution = fallback(&query, &corpus()).unwrap();
    assert!(matches!(resolution, Resolution::Substituted { .. }));
}

#[test]
fn answer_without_recipes_counts_as_no_match() {
    let (resolver, _) = asked(Resolver::begin("carbonara"));
    let empty = Ok(Recipes { meals: Some(Vec::new()) });
    let (_, keyword) = asked(resolver.advance(empty));
    assert_eq!(keyword, "Carbonara");
}

#[test]
fn typo_falls_back_on_the_corpus() {
    let resolution = search("carbonaraa", &corpus()).unwrap();
    assert_eq!(
        resolution.advisory(),
        vec![
            String::from("\u{26a0}\u{fe0f}  No exact match found for \"carbonaraa\"."),
            String::from("\u{1f4a1} Did you mean: \"Carbonara\"? Using cached data..."),
        ]
    );
    match resolution {
        Resolution::Substituted { original_query, name, recipes } => {
            assert_eq!(original_query, "carbonaraa");
            assert_eq!(name, "Carbonara");
            assert_eq!(recipes.len(), 1);
            assert_eq!(recipes[0].name, Some(String::from("Carbonara")));
            assert_eq!(recipes[0].thumbnail, Some(String::from("https://img.example.org/t.jpg")));
        },
        Resolution::Exact { .. } => panic!("there was no match"),
    }
}

#[test]
fn typo_at_distance_one_is_within_a_threshold_of_nine() {
    assert_eq!(threshold_of("Spaghetti Carbonara", "carbonaraa"), 9);
    assert_eq!(pick_closest(&vec![(1, threshold_of("Spaghetti Carbonara", "carbonaraa"))]), Some(0));
}

#[test]
fn long_name_is_too_far_from_a_short_typo() {
    assert_eq!(distance_of("Spaghetti Carbonara", "carbonaraa"), 11);
    let alone = vec![entry("Spaghetti Carbonara")];
    assert_eq!(closest_match(&alone, "carbonaraa"), None);
    let query = Query::new("carbonaraa");
    assert!(matches!(fallback(&query, &alone), Err(SearchFailure::NotFound(_))));
}

#[test]
fn nonsense_is_not_found() {
    let failure = search("zzzzzqqqqq", &corpus()).unwrap_err();
    assert_eq!(failure.message(), "\u{274c} No recipes or close matches found for \"zzzzzqqqqq\".");
    match failure {
        SearchFailure::NotFound(query) => assert_eq!(query, "zzzzzqqqqq"),
    }
}

#[test]
fn failure_names_the_query_as_it_was_typed() {
    let failure = search("  ZZZZZqqqqq  ", &corpus()).unwrap_err();
    assert!(matches!(failure, SearchFailure::NotFound(query) if query == "ZZZZZqqqqq"));
}

#[test]
fn empty_query_goes_through_every_stage() {
    let (resolver, keyword) = asked(Resolver::begin("   "));
    assert_eq!(keyword, "");
    let (resolver, keyword) = asked(resolver.advance(no_answer()));
    assert_eq!(keyword, "");
    let query = consulted(resolver.advance(no_answer()));
    let failure = fallback(&query, &corpus()).unwrap_err();
    assert!(matches!(failure, SearchFailure::NotFound(query) if query.is_empty()));
}

#[test]
fn empty_corpus_finds_nothing() {
    let failure = search("carbonara", &Vec::new()).unwrap_err();
    assert!(matches!(failure, SearchFailure::NotFound(query) if query == "carbonara"));
}

#[test]
fn long_query_is_measured_by_its_own_length() {
    let names = vec![entry("Pie")];
    assert_eq!(threshold_of("Pie", "pie with apples"), 7);
    assert_eq!(distance_of("Pie", "pie with apples"), 12);
    assert_eq!(closest_match(&names, "pie with apples"), None);
    assert_eq!(closest_match(&names, "piee"), Some(0));
}

#[test]
fn fallback_substitutes_the_entry_of_the_corpus() {
    let query = Query::new("Beef Welington");
    let resolution = fallback(&query, &corpus()).unwrap();
    let recipes = resolution.into_recipes();
    assert_eq!(recipes.len(), 1);
    assert_eq!(recipes[0].name, Some(String::from("Beef Wellington")));
    assert_eq!(
        recipes[0].ingredients,
        vec![(Some(String::from("Salt")), Some(String::from("1 tsp"))), (None, None)]
    );
}
