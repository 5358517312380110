//! Catalog records, the entries of the offline corpus, and the projection of a record to
//! what the compositor prints.

use crate::ascii::RenderError;
use crate::cli::{shows_image, wants_image, Info};
use crate::report::{all_listed, DisplayRecipe, DisplayView};
use crate::text::{byte_len, byte_length};
use std::sync::Arc;
use vstd::prelude::*;

verus! {

/// One recipe as the catalog gives it. Every field may be missing, and an ingredient or
/// its quantity may be missing or empty.
#[derive(Debug)]
pub struct Recipe {
    pub id: Option<String>,
    pub name: Option<String>,
    pub category: Option<String>,
    pub area: Option<String>,
    pub instructions: Option<String>,
    pub thumbnail: Option<String>,
    pub youtube: Option<String>,
    pub source: Option<String>,
    /// The ingredients with their quantities, in the order of the catalog.
    pub ingredients: Vec<(Option<String>, Option<String>)>,
}

/// What a `Recipe` holds, as plain texts.
pub ghost struct RecipeView {
    pub id: Option<Seq<char>>,
    pub name: Option<Seq<char>>,
    pub category: Option<Seq<char>>,
    pub area: Option<Seq<char>>,
    pub instructions: Option<Seq<char>>,
    pub thumbnail: Option<Seq<char>>,
    pub youtube: Option<Seq<char>>,
    pub source: Option<Seq<char>>,
    pub ingredients: Seq<(Option<Seq<char>>, Option<Seq<char>>)>,
}

impl View for Recipe {
    type V = RecipeView;

    open spec fn view(&self) -> RecipeView {
        RecipeView {
            id: self.id.deep_view(),
            name: self.name.deep_view(),
            category: self.category.deep_view(),
            area: self.area.deep_view(),
            instructions: self.instructions.deep_view(),
            thumbnail: self.thumbnail.deep_view(),
            youtube: self.youtube.deep_view(),
            source: self.source.deep_view(),
            ingredients: self.ingredients.deep_view(),
        }
    }
}

impl DeepView for Recipe {
    type V = RecipeView;

    open spec fn deep_view(&self) -> RecipeView {
        self@
    }
}

impl Default for Recipe {
    /// The recipe of which nothing is known.
    fn default() -> (recipe: Recipe)
        ensures
            recipe@ == (RecipeView {
                id: None,
                name: None,
                category: None,
                area: None,
                instructions: None,
                thumbnail: None,
                youtube: None,
                source: None,
                ingredients: Seq::empty(),
            }),
    {
        let recipe = Recipe {
            id: None,
            name: None,
            category: None,
            area: None,
            instructions: None,
            thumbnail: None,
            youtube: None,
            source: None,
            ingredients: Vec::new(),
        };
        assert(recipe.ingredients.deep_view() =~= Seq::empty());
        recipe
    }
}

/// An answer of the catalog: the recipes that it found, if it found any.
#[derive(Debug)]
pub struct Recipes {
    pub meals: Option<Vec<Recipe>>,
}

impl View for Recipes {
    type V = Option<Seq<RecipeView>>;

    open spec fn view(&self) -> Option<Seq<RecipeView>> {
        self.meals.deep_view()
    }
}

impl Default for Recipes {
    /// The answer without recipes.
    fn default() -> (recipes: Recipes)
        ensures
            recipes@ is None,
    {
        Recipes { meals: None }
    }
}

/// An answer counts as a match when it holds at least one recipe.
pub open spec fn is_match(answer: Option<Seq<RecipeView>>) -> bool {
    answer matches Some(meals) && meals.len() > 0
}

impl Recipes {
    /// Whether the answer holds at least one recipe.
    pub fn has_meals(&self) -> (found: bool)
        ensures
            found == is_match(self@),
    {
        match &self.meals {
            Some(meals) => meals.len() > 0,
            None => false,
        }
    }
}

/// A recipe of the offline corpus: name and thumbnail, at most two ingredients, and what
/// else is known of it.
#[derive(Debug)]
pub struct MealCacheEntry {
    pub id: String,
    pub name: String,
    pub thumb: String,
    pub instructions: Option<String>,
    pub category: Option<String>,
    pub area: Option<String>,
    pub source: Option<String>,
    pub youtube: Option<String>,
    pub ing1: Option<String>,
    pub ing2: Option<String>,
    pub meas1: Option<String>,
    pub meas2: Option<String>,
}

/// What a `MealCacheEntry` holds, as plain texts.
pub ghost struct EntryView {
    pub id: Seq<char>,
    pub name: Seq<char>,
    pub thumb: Seq<char>,
    pub instructions: Option<Seq<char>>,
    pub category: Option<Seq<char>>,
    pub area: Option<Seq<char>>,
    pub source: Option<Seq<char>>,
    pub youtube: Option<Seq<char>>,
    pub ing1: Option<Seq<char>>,
    pub ing2: Option<Seq<char>>,
    pub meas1: Option<Seq<char>>,
    pub meas2: Option<Seq<char>>,
}

impl View for MealCacheEntry {
    type V = EntryView;

    open spec fn view(&self) -> EntryView {
        EntryView {
            id: self.id@,
            name: self.name@,
            thumb: self.thumb@,
            instructions: self.instructions.deep_view(),
            category: self.category.deep_view(),
            area: self.area.deep_view(),
            source: self.source.deep_view(),
            youtube: self.youtube.deep_view(),
            ing1: self.ing1.deep_view(),
            ing2: self.ing2.deep_view(),
            meas1: self.meas1.deep_view(),
            meas2: self.meas2.deep_view(),
        }
    }
}

impl DeepView for MealCacheEntry {
    type V = EntryView;

    open spec fn deep_view(&self) -> EntryView {
        self@
    }
}

/// The catalog record that stands for an entry of the corpus.
pub open spec fn entry_recipe(entry: EntryView) -> RecipeView {
    RecipeView {
        id: Some(entry.id),
        name: Some(entry.name),
        category: entry.category,
        area: entry.area,
        instructions: entry.instructions,
        thumbnail: Some(entry.thumb),
        youtube: entry.youtube,
        source: entry.source,
        ingredients: seq![(entry.ing1, entry.meas1), (entry.ing2, entry.meas2)],
    }
}

fn copy_of(field: &Option<String>) -> (copy: Option<String>)
    ensures
        copy.deep_view() == field.deep_view(),
{
    match field {
        Some(text) => Some(text.clone()),
        None => None,
    }
}

impl MealCacheEntry {
    /// Turns the entry into a catalog record with the same contents.
    pub fn to_recipe(self) -> (recipe: Recipe)
        ensures
            recipe@ == entry_recipe(self@),
    {
        let mut ingredients: Vec<(Option<String>, Option<String>)> = Vec::new();
        ingredients.push((self.ing1, self.meas1));
        ingredients.push((self.ing2, self.meas2));
        let recipe = Recipe {
            id: Some(self.id),
            name: Some(self.name),
            category: self.category,
            area: self.area,
            instructions: self.instructions,
            thumbnail: Some(self.thumb),
            youtube: self.youtube,
            source: self.source,
            ingredients,
        };
        assert(recipe@.ingredients =~= entry_recipe(self@).ingredients);
        recipe
    }

    /// A copy of the entry.
    pub fn duplicate(&self) -> (copy: MealCacheEntry)
        ensures
            copy@ == self@,
    {
        MealCacheEntry {
            id: self.id.clone(),
            name: self.name.clone(),
            thumb: self.thumb.clone(),
            instructions: copy_of(&self.instructions),
            category: copy_of(&self.category),
            area: copy_of(&self.area),
            source: copy_of(&self.source),
            youtube: copy_of(&self.youtube),
            ing1: copy_of(&self.ing1),
            ing2: copy_of(&self.ing2),
            meas1: copy_of(&self.meas1),
            meas2: copy_of(&self.meas2),
        }
    }
}

/// The number that `serde_json::from_str::<u32>` reads from `text`, if it reads one.
pub uninterp spec fn json_u32(text: Seq<char>) -> Option<u32>;

/// `serde_json::from_str::<u32>`, with its error dropped: the number that the JSON parser
/// reads from the text, which depends on the text alone and is named by `json_u32`.
#[verifier::external_body]
pub(crate) fn parse_json_u32(text: &str) -> (number: Option<u32>)
    ensures
        number == json_u32(text@),
{
    serde_json::from_str::<u32>(text).ok()
}

/// What the renderer needs to know: where the image is, and the longest text that will
/// stand beside it.
#[derive(Debug)]
pub struct ImageRequest {
    pub url: String,
    pub longest_text: String,
}

/// The text of a field, which is empty where the field is missing.
pub open spec fn text_of(field: Option<Seq<char>>) -> Seq<char> {
    match field {
        Some(text) => text,
        None => Seq::empty(),
    }
}

/// An ingredient is listed when its name and its quantity are both there and non-empty.
pub open spec fn listing(pair: (Option<Seq<char>>, Option<Seq<char>>)) -> Option<
    (Seq<char>, Seq<char>),
> {
    match pair {
        (Some(name), Some(quantity)) => if name.len() > 0 && quantity.len() > 0 {
            Some((name, quantity))
        } else {
            None
        },
        _ => None,
    }
}

/// The ingredients that are listed, in their order.
pub open spec fn listed(pairs: Seq<(Option<Seq<char>>, Option<Seq<char>>)>) -> Seq<
    (Seq<char>, Seq<char>),
> {
    pairs.filter_map(|pair: (Option<Seq<char>>, Option<Seq<char>>)| listing(pair))
}

/// Of two texts the one that takes more bytes, and the second where they take the same.
pub open spec fn longer_text(first: Seq<char>, second: Seq<char>) -> Seq<char> {
    if byte_len(first) > byte_len(second) {
        first
    } else {
        second
    }
}

/// The longest of the texts that stand beside the image: title, category, area and the
/// three addresses. Among several of the greatest length it is the last.
pub open spec fn longest_text(recipe: RecipeView) -> Seq<char> {
    longer_text(
        longer_text(
            longer_text(
                longer_text(
                    longer_text(
                        longer_text(Seq::empty(), text_of(recipe.name)),
                        text_of(recipe.category),
                    ),
                    text_of(recipe.area),
                ),
                text_of(recipe.source),
            ),
            text_of(recipe.youtube),
        ),
        text_of(recipe.thumbnail),
    )
}

/// An image is rendered for a recipe exactly when the image is asked for and the recipe
/// has a thumbnail.
pub open spec fn needs_image(recipe: RecipeView, infos: Seq<Info>) -> bool {
    shows_image(infos) && text_of(recipe.thumbnail).len() > 0
}

/// The identifier that is displayed: the number that was read, and 0 where none was.
pub open spec fn display_id(number: Option<u32>) -> nat {
    match number {
        Some(id) => id as nat,
        None => 0,
    }
}

/// The image block that is displayed: what was rendered, where an image was needed and
/// rendering succeeded, and the empty block otherwise.
pub open spec fn display_image(
    recipe: RecipeView,
    infos: Seq<Info>,
    rendered: Result<Seq<Seq<char>>, RenderError>,
) -> Seq<Seq<char>> {
    match rendered {
        Ok(lines) => if needs_image(recipe, infos) {
            lines
        } else {
            Seq::empty()
        },
        Err(_) => Seq::empty(),
    }
}

/// The projection of a catalog record to what is displayed.
pub open spec fn displayed(
    recipe: RecipeView,
    number: Option<u32>,
    infos: Seq<Info>,
    rendered: Result<Seq<Seq<char>>, RenderError>,
) -> DisplayView {
    DisplayView {
        id: display_id(number),
        title: text_of(recipe.name),
        category: text_of(recipe.category),
        area: text_of(recipe.area),
        ingredients: listed(recipe.ingredients),
        instructions: text_of(recipe.instructions),
        tutorial_url: text_of(recipe.source),
        youtube_url: text_of(recipe.youtube),
        image_url: text_of(recipe.thumbnail),
        image: display_image(recipe, infos, rendered),
        infos,
    }
}

/// The lines of a rendering, where there is one.
pub open spec fn rendered_view(rendered: Result<Vec<String>, RenderError>) -> Result<
    Seq<Seq<char>>,
    RenderError,
> {
    match rendered {
        Ok(lines) => Ok(lines.deep_view()),
        Err(error) => Err(error),
    }
}

fn text_or_empty(field: Option<String>) -> (text: String)
    ensures
        text@ == text_of(field.deep_view()),
{
    match field {
        Some(text) => text,
        None => String::new(),
    }
}

fn text_ref(field: &Option<String>) -> (text: &str)
    ensures
        text@ == text_of(field.deep_view()),
{
    match field {
        Some(text) => text.as_str(),
        None => {
            proof {
                reveal_strlit("");
            }
            ""
        },
    }
}

fn longer<'a>(first: &'a str, second: &'a str) -> (chosen: &'a str)
    ensures
        chosen@ == longer_text(first@, second@),
{
    if byte_length(first) > byte_length(second) {
        first
    } else {
        second
    }
}

fn list_ingredients(pairs: &Vec<(Option<String>, Option<String>)>) -> (kept: Vec<(String, String)>)
    ensures
        kept.deep_view() == listed(pairs.deep_view()),
{
    let ghost all = pairs.deep_view();
    let mut kept: Vec<(String, String)> = Vec::new();
    let mut i: usize = 0;
    assert(kept.deep_view() =~= listed(all.take(0)));
    while i < pairs.len()
        invariant
            i <= pairs.len(),
            all == pairs.deep_view(),
            kept.deep_view() == listed(all.take(i as int)),
        decreases pairs.len() - i,
    {
        let ghost before = kept.deep_view();
        proof {
            let next = all.take(i as int + 1);
            assert(next.drop_last() =~= all.take(i as int));
            assert(next.last() == all[i as int]);
        }
        match &pairs[i] {
            (Some(name), Some(quantity)) => {
                if !name.as_str().is_empty() && !quantity.as_str().is_empty() {
                    kept.push((name.clone(), quantity.clone()));
                    assert(kept.deep_view() =~= before + seq![(name@, quantity@)]);
                }
            },
            _ => {},
        }
        i = i + 1;
    }
    assert(all.take(pairs.len() as int) =~= all);
    kept
}

impl Recipe {
    /// What the renderer is asked for: nothing unless the image is asked for and the
    /// recipe has a thumbnail, and else the address of the thumbnail with the longest
    /// text that will stand beside the image.
    pub fn image_request(&self, infos: &Vec<Info>) -> (request: Option<ImageRequest>)
        ensures
            request is Some <==> needs_image(self@, infos@),
            request matches Some(asked) ==> asked.url@ == text_of(self@.thumbnail)
                && asked.longest_text@ == longest_text(self@),
    {
        let url = text_ref(&self.thumbnail);
        if !wants_image(infos) || url.is_empty() {
            return None;
        }
        proof {
            reveal_strlit("");
        }
        let mut longest = longer("", text_ref(&self.name));
        longest = longer(longest, text_ref(&self.category));
        longest = longer(longest, text_ref(&self.area));
        longest = longer(longest, text_ref(&self.source));
        longest = longer(longest, text_ref(&self.youtube));
        longest = longer(longest, url);
        Some(ImageRequest { url: String::from_str(url), longest_text: String::from_str(longest) })
    }

    /// The display recipe of this record, given the number that was read from its
    /// identifier and what the renderer gave. A rendering that failed, or that was not
    /// asked for, leaves the image block empty.
    pub fn into_display(
        self,
        number: Option<u32>,
        infos: Arc<Vec<Info>>,
        rendered: Result<Vec<String>, RenderError>,
    ) -> (display: DisplayRecipe)
        ensures
            display@ == displayed(self@, number, infos@, rendered_view(rendered)),
            display.wf(),
    {
        let ghost recipe = self@;
        let ingredients = list_ingredients(&self.ingredients);
        let id = match number {
            Some(id) => id,
            None => 0,
        };
        let image_url = text_or_empty(self.thumbnail);
        let no_image: Vec<String> = Vec::new();
        assert(no_image.deep_view() =~= Seq::<Seq<char>>::empty());
        let image_msg = match rendered {
            Ok(lines) => if wants_image(&infos) && !image_url.as_str().is_empty() {
                lines
            } else {
                no_image
            },
            Err(_) => no_image,
        };
        let display = DisplayRecipe {
            id,
            title: text_or_empty(self.name),
            category: text_or_empty(self.category),
            area: text_or_empty(self.area),
            ingredients,
            instructions: text_or_empty(self.instructions),
            tutorial_url: text_or_empty(self.source),
            youtube_url: text_or_empty(self.youtube),
            image_url,
            image_msg,
            infos,
        };
        proof {
            lemma_listed_is_complete(recipe.ingredients);
        }
        display
    }

    /// The display recipe of this record. Its identifier is read as a JSON number.
    pub fn to_display_recipe(
        self,
        infos: Arc<Vec<Info>>,
        rendered: Result<Vec<String>, RenderError>,
    ) -> (display: DisplayRecipe)
        ensures
            display@ == displayed(
                self@,
                json_u32(text_of(self@.id)),
                infos@,
                rendered_view(rendered),
            ),
            display.wf(),
    {
        let number = parse_json_u32(text_ref(&self.id));
        self.into_display(number, infos, rendered)
    }
}

/// No ingredient with a missing or empty part is ever listed, whatever the catalog gave.
pub proof fn lemma_listed_is_complete(pairs: Seq<(Option<Seq<char>>, Option<Seq<char>>)>)
    ensures
        all_listed(listed(pairs)),
        listed(pairs).len() <= pairs.len(),
    decreases pairs.len(),
{
    reveal(Seq::filter_map);
    if pairs.len() > 0 {
        lemma_listed_is_complete(pairs.drop_last());
    }
}

/// The links alone never ask for an image, and `All` alone always does.
pub proof fn lemma_image_only_with_all(recipe: RecipeView)
    ensures
        !needs_image(recipe, seq![Info::Links]),
        !needs_image(recipe, seq![Info::Instructions]),
        !needs_image(recipe, Seq::empty()),
        text_of(recipe.thumbnail).len() > 0 ==> needs_image(recipe, seq![Info::All]),
{
    assert(seq![Info::All][0] == Info::All);
}

} // verus!
