use foodfetch::ascii::RenderError;
use foodfetch::cli::Info;
use foodfetch::recipe::{ImageRequest, MealCacheEntry, Recipe, Recipes};
use std::sync::Arc;

fn some(text: &str) -> Option<String> {
    Some(String::from(text))
}

fn pair(name: Option<&str>, quantity: Option<&str>) -> (Option<String>, Option<String>) {
    (name.map(String::from), quantity.map(String::from))
}

fn lasagne() -> Recipe {
    Recipe {
        id: some("52844"),
        name: some("Lasagne"),
        category: some("Pasta"),
        area: some("Italian"),
        instructions: some("Layer and bake."),
        thumbnail: some("https://img.example.org/lasagne.jpg"),
        youtube: some("https://video.example.org/lasagne"),
        source: some("https://example.org/lasagne"),
        ingredients: vec![
            pair(Some("Olive Oil"), Some("1 tblsp")),
            pair(Some("Bacon"), Some("2")),
            pair(Some(""), Some("")),
        ],
    }
}

fn image() -> Vec<String> {
    vec![String::from("##"), String::from("##")]
}

#[test]
fn default_recipe_is_empty() {
    let recipe = Recipe::default();
    assert!(recipe.id.is_none());
    assert!(recipe.name.is_none());
    assert!(recipe.thumbnail.is_none());
    assert!(recipe.ingredients.is_empty());
    assert!(Recipes::default().meals.is_none());
}

#[test]
fn answer_matches_with_a_recipe_in_it() {
    assert!(Recipes { meals: Some(vec![lasagne()]) }.has_meals());
    assert!(!Recipes { meals: Some(Vec::new()) }.has_meals());
    assert!(!Recipes { meals: None }.has_meals());
}

#[test]
fn display_takes_over_the_fields() {
    let display = lasagne().to_display_recipe(Arc::new(vec![Info::All]), Ok(image()));
    assert_eq!(display.id, 52844);
    assert_eq!(display.title, "Lasagne");
    assert_eq!(display.category, "Pasta");
    assert_eq!(display.area, "Italian");
    assert_eq!(display.instructions, "Layer and bake.");
    assert_eq!(display.tutorial_url, "https://example.org/lasagne");
    assert_eq!(display.youtube_url, "https://video.example.org/lasagne");
    assert_eq!(display.image_url, "https://img.example.org/lasagne.jpg");
    assert_eq!(display.image_msg, image());
    assert_eq!(*display.infos, vec![Info::All]);
}

#[test]
fn missing_fields_are_displayed_empty() {
    let display = Recipe::default().to_display_recipe(Arc::new(vec![Info::All]), Ok(image()));
    assert_eq!(display.id, 0);
    assert_eq!(display.title, "");
    assert_eq!(display.category, "");
    assert_eq!(display.area, "");
    assert_eq!(display.instructions, "");
    assert_eq!(display.tutorial_url, "");
    assert_eq!(display.youtube_url, "");
    assert_eq!(display.image_url, "");
    assert!(display.ingredients.is_empty());
    assert!(display.image_msg.is_empty());
}

#[test]
fn identifier_is_read_as_a_number() {
    let infos = Arc::new(Vec::new());
    let mut recipe = lasagne();
    recipe.id = some("7");
    assert_eq!(recipe.to_display_recipe(infos.clone(), Ok(Vec::new())).id, 7);
    let mut padded = lasagne();
    padded.id = some(" 4294967295 ");
    assert_eq!(padded.to_display_recipe(infos.clone(), Ok(Vec::new())).id, u32::MAX);
}

#[test]
fn identifier_that_is_no_number_is_zero() {
    let infos = Arc::new(Vec::new());
    for text in ["", "abc", "12abc", "-3", "4294967296", "1.5", "007"] {
        let mut recipe = lasagne();
        recipe.id = some(text);
        assert_eq!(recipe.to_display_recipe(infos.clone(), Ok(Vec::new())).id, 0);
    }
    let mut missing = lasagne();
    missing.id = None;
    assert_eq!(missing.to_display_recipe(infos, Ok(Vec::new())).id, 0);
}

#[test]
fn into_display_takes_the_number_as_given() {
    let infos = Arc::new(Vec::new());
    assert_eq!(lasagne().into_display(Some(12), infos.clone(), Ok(Vec::new())).id, 12);
    assert_eq!(lasagne().into_display(None, infos, Ok(Vec::new())).id, 0);
}

#[test]
fn incomplete_ingredients_are_not_listed() {
    let mut recipe = lasagne();
    recipe.ingredients = vec![
        pair(Some("Flour"), Some("200g")),
        pair(Some(""), Some("1 tsp")),
        pair(Some("Salt"), Some("")),
        pair(None, Some("2")),
        pair(Some("Eggs"), None),
        pair(None, None),
        pair(Some(""), Some("")),
        pair(Some("Milk"), Some(" ")),
        pair(Some("Butter"), Some("50g")),
    ];
    let display = recipe.to_display_recipe(Arc::new(vec![Info::All]), Ok(Vec::new()));
    assert_eq!(
        display.ingredients,
        vec![
            (String::from("Flour"), String::from("200g")),
            (String::from("Milk"), String::from(" ")),
            (String::from("Butter"), String::from("50g")),
        ]
    );
    for (name, quantity) in &display.ingredients {
        assert!(!name.is_empty());
        assert!(!quantity.is_empty());
    }
}

#[test]
fn more_than_twenty_ingredients_are_listed() {
    let mut recipe = lasagne();
    recipe.ingredients = (0..30).map(|i| pair(Some(&format!("i{}", i)), Some("1"))).collect();
    let display = recipe.to_display_recipe(Arc::new(Vec::new()), Ok(Vec::new()));
    assert_eq!(display.ingredients.len(), 30);
    assert_eq!(display.ingredients[29].0, "i29");
}

#[test]
fn failed_rendering_leaves_the_image_empty() {
    for error in [
        RenderError::Decode,
        RenderError::Transport,
        RenderError::NoTerminal,
        RenderError::NoRoom,
    ] {
        let display = lasagne().to_display_recipe(Arc::new(vec![Info::All]), Err(error));
        assert!(display.image_msg.is_empty());
        assert_eq!(display.title, "Lasagne");
    }
}

#[test]
fn image_is_dropped_where_it_was_not_asked_for() {
    let display = lasagne().to_display_recipe(Arc::new(vec![Info::Links]), Ok(image()));
    assert!(display.image_msg.is_empty());
    let mut no_thumbnail = lasagne();
    no_thumbnail.thumbnail = None;
    let display = no_thumbnail.to_display_recipe(Arc::new(vec![Info::All]), Ok(image()));
    assert!(display.image_msg.is_empty());
}

#[test]
fn links_alone_ask_for_no_image() {
    assert!(lasagne().image_request(&vec![Info::Links]).is_none());
    assert!(lasagne().image_request(&vec![Info::Instructions]).is_none());
    assert!(lasagne().image_request(&vec![Info::Links, Info::Instructions]).is_none());
    assert!(lasagne().image_request(&Vec::new()).is_none());
}

#[test]
fn all_asks_for_the_image_of_the_thumbnail() {
    let request: ImageRequest = lasagne().image_request(&vec![Info::All]).unwrap();
    assert_eq!(request.url, "https://img.example.org/lasagne.jpg");
    assert_eq!(request.longest_text, "https://img.example.org/lasagne.jpg");
    assert!(lasagne().image_request(&vec![Info::Links, Info::All]).is_some());
}

#[test]
fn all_asks_for_nothing_without_a_thumbnail() {
    let mut missing = lasagne();
    missing.thumbnail = None;
    assert!(missing.image_request(&vec![Info::All]).is_none());
    let mut empty = lasagne();
    empty.thumbnail = some("");
    assert!(empty.image_request(&vec![Info::All]).is_none());
}

#[test]
fn longest_text_is_the_last_of_the_longest() {
    let mut recipe = Recipe::default();
    recipe.name = some("abcdef");
    recipe.category = some("uvwxyz");
    recipe.area = some("abc");
    recipe.thumbnail = some("t.jpg");
    let request = recipe.image_request(&vec![Info::All]).unwrap();
    assert_eq!(request.longest_text, "uvwxyz");
    let mut by_bytes = Recipe::default();
    by_bytes.name = some("abcd");
    by_bytes.source = some("\u{e9}\u{e9}\u{e9}");
    by_bytes.thumbnail = some("t.j");
    let request = by_bytes.image_request(&vec![Info::All]).unwrap();
    assert_eq!(request.longest_text, "\u{e9}\u{e9}\u{e9}");
}

fn entry() -> MealCacheEntry {
    MealCacheEntry {
        id: String::from("52982"),
        name: String::from("Spaghetti Carbonara"),
        thumb: String::from("https://img.example.org/carbonara.jpg"),
        instructions: some("Boil."),
        category: some("Pasta"),
        area: None,
        source: some("https://example.org/carbonara"),
        youtube: None,
        ing1: some("Spaghetti"),
        ing2: some("Egg Yolks"),
        meas1: some("320g"),
        meas2: None,
    }
}

#[test]
fn entry_becomes_a_recipe_with_the_same_contents() {
    let recipe = entry().to_recipe();
    assert_eq!(recipe.id, some("52982"));
    assert_eq!(recipe.name, some("Spaghetti Carbonara"));
    assert_eq!(recipe.thumbnail, some("https://img.example.org/carbonara.jpg"));
    assert_eq!(recipe.instructions, some("Boil."));
    assert_eq!(recipe.category, some("Pasta"));
    assert_eq!(recipe.area, None);
    assert_eq!(recipe.source, some("https://example.org/carbonara"));
    assert_eq!(recipe.youtube, None);
    assert_eq!(
        recipe.ingredients,
        vec![pair(Some("Spaghetti"), Some("320g")), pair(Some("Egg Yolks"), None)]
    );
}

#[test]
fn entry_is_displayed_with_its_complete_ingredients() {
    let display = entry().to_recipe().to_display_recipe(Arc::new(vec![Info::All]), Ok(Vec::new()));
    assert_eq!(display.id, 52982);
    assert_eq!(display.ingredients, vec![(String::from("Spaghetti"), String::from("320g"))]);
}

#[test]
fn duplicate_is_equal_to_the_entry() {
    let first = entry();
    let second = first.duplicate();
    assert_eq!(second.id, first.id);
    assert_eq!(second.name, first.name);
    assert_eq!(second.thumb, first.thumb);
    assert_eq!(second.instructions, first.instructions);
    assert_eq!(second.category, first.category);
    assert_eq!(second.area, first.area);
    assert_eq!(second.source, first.source);
    assert_eq!(second.youtube, first.youtube);
    assert_eq!(second.ing1, first.ing1);
    assert_eq!(second.ing2, first.ing2);
    assert_eq!(second.meas1, first.meas1);
    assert_eq!(second.meas2, first.meas2);
}
