//! The report compositor: it lays the text of a recipe beside its image block, line by
//! line, and appends the wrapped instructions below.

use crate::cli::{
    shows_image, shows_instructions, shows_links, wants_image, wants_instructions, wants_links,
    Info,
};
use crate::paint::{is_red, red};
use crate::text::{decimal, join_lines, joined, push_decimal, push_terminated, terminated};
use std::sync::Arc;
use textwrap::Options;
use vstd::prelude::*;

verus! {

/// The column at which the instructions are wrapped.
pub const WRAP_WIDTH: usize = 80;

/// The lines into which `textwrap::wrap` breaks `text` at `width` columns when every
/// line starts with `indent`.
pub uninterp spec fn wrapped(text: Seq<char>, width: nat, indent: Seq<char>) -> Seq<Seq<char>>;

/// `textwrap::wrap` with the options `Options::new(width)`, `initial_indent(indent)` and
/// `subsequent_indent(indent)`. The lines it gives depend on the three arguments alone;
/// they are named by `wrapped`, and nothing more is claimed of them.
#[verifier::external_body]
pub(crate) fn wrap(text: &str, width: usize, indent: &str) -> (lines: Vec<String>)
    ensures
        lines.deep_view() == wrapped(text@, width as nat, indent@),
{
    let options = Options::new(width).initial_indent(indent).subsequent_indent(indent);
    let mut lines: Vec<String> = Vec::new();
    for line in textwrap::wrap(text, &options) {
        lines.push(line.into_owned());
    }
    lines
}

/// The words that head the sections of a report, as they are printed: bare, or painted.
pub struct Labels {
    pub title: String,
    pub rule: String,
    pub category: String,
    pub area: String,
    pub ingredients: String,
    pub tutorial: String,
    pub youtube: String,
    pub image_url: String,
    pub instructions: String,
}

/// The texts of a set of labels.
pub ghost struct LabelTexts {
    pub title: Seq<char>,
    pub rule: Seq<char>,
    pub category: Seq<char>,
    pub area: Seq<char>,
    pub ingredients: Seq<char>,
    pub tutorial: Seq<char>,
    pub youtube: Seq<char>,
    pub image_url: Seq<char>,
    pub instructions: Seq<char>,
}

impl View for Labels {
    type V = LabelTexts;

    open spec fn view(&self) -> LabelTexts {
        LabelTexts {
            title: self.title@,
            rule: self.rule@,
            category: self.category@,
            area: self.area@,
            ingredients: self.ingredients@,
            tutorial: self.tutorial@,
            youtube: self.youtube@,
            image_url: self.image_url@,
            instructions: self.instructions@,
        }
    }
}

/// The labels without any colour.
pub open spec fn bare_labels() -> LabelTexts {
    LabelTexts {
        title: "Title"@,
        rule: "----"@,
        category: "Category"@,
        area: "Area"@,
        ingredients: "Ingredients : "@,
        tutorial: "Tutorial"@,
        youtube: "Youtube"@,
        image_url: "Image url"@,
        instructions: "Instructions : "@,
    }
}

/// Every label is its bare text, in red or unpainted.
pub open spec fn red_labels(labels: LabelTexts) -> bool {
    &&& is_red(labels.title, bare_labels().title)
    &&& is_red(labels.rule, bare_labels().rule)
    &&& is_red(labels.category, bare_labels().category)
    &&& is_red(labels.area, bare_labels().area)
    &&& is_red(labels.ingredients, bare_labels().ingredients)
    &&& is_red(labels.tutorial, bare_labels().tutorial)
    &&& is_red(labels.youtube, bare_labels().youtube)
    &&& is_red(labels.image_url, bare_labels().image_url)
    &&& is_red(labels.instructions, bare_labels().instructions)
}

impl Labels {
    /// The labels without any colour.
    pub fn bare() -> (labels: Labels)
        ensures
            labels@ == bare_labels(),
    {
        Labels {
            title: String::from_str("Title"),
            rule: String::from_str("----"),
            category: String::from_str("Category"),
            area: String::from_str("Area"),
            ingredients: String::from_str("Ingredients : "),
            tutorial: String::from_str("Tutorial"),
            youtube: String::from_str("Youtube"),
            image_url: String::from_str("Image url"),
            instructions: String::from_str("Instructions : "),
        }
    }

    /// The labels in red. Whether any escape sequence is written is for the terminal
    /// colour library to decide, label by label.
    pub fn painted() -> (labels: Labels)
        ensures
            red_labels(labels@),
    {
        proof {
            reveal_strlit("Title");
            reveal_strlit("----");
            reveal_strlit("Category");
            reveal_strlit("Area");
            reveal_strlit("Ingredients : ");
            reveal_strlit("Tutorial");
            reveal_strlit("Youtube");
            reveal_strlit("Image url");
            reveal_strlit("Instructions : ");
        }
        Labels {
            title: red("Title"),
            rule: red("----"),
            category: red("Category"),
            area: red("Area"),
            ingredients: red("Ingredients : "),
            tutorial: red("Tutorial"),
            youtube: red("Youtube"),
            image_url: red("Image url"),
            instructions: red("Instructions : "),
        }
    }
}

/// The image line at `i`, and the empty line where the image block has none.
pub open spec fn image_line(image: Seq<Seq<char>>, i: int) -> Seq<char> {
    if 0 <= i < image.len() {
        image[i]
    } else {
        Seq::empty()
    }
}

/// The number of lines of a report with an image block of `image` lines: the height of
/// the image, or what the top margin, the start lines and the end lines need together.
pub open spec fn overlay_height(image: nat, start: nat, end: nat) -> nat {
    if image >= start + end + 1 {
        image
    } else {
        start + end + 1
    }
}

/// Line `i` of a report with an image block: the image line, and to its right the start
/// line that falls on it (they begin at line 1) or the end line (they fill the bottom).
pub open spec fn overlay_line(
    image: Seq<Seq<char>>,
    start: Seq<Seq<char>>,
    end: Seq<Seq<char>>,
    i: int,
) -> Seq<char> {
    let first_end = overlay_height(image.len(), start.len(), end.len()) - end.len();
    if 1 <= i <= start.len() {
        image_line(image, i) + start[i - 1]
    } else if first_end <= i < first_end + end.len() {
        image_line(image, i) + end[i - first_end]
    } else {
        image_line(image, i)
    }
}

/// The lines of a report. Without an image block the start lines stand above the end
/// lines. With one, line 0 is a top margin, the start lines follow from line 1, the end
/// lines are anchored to the bottom, and the block is padded with empty lines where the
/// text needs more room than the image has.
pub open spec fn overlay(
    image: Seq<Seq<char>>,
    start: Seq<Seq<char>>,
    end: Seq<Seq<char>>,
) -> Seq<Seq<char>> {
    if image.len() == 0 {
        start + end
    } else {
        Seq::new(
            overlay_height(image.len(), start.len(), end.len()),
            |i: int| overlay_line(image, start, end, i),
        )
    }
}

fn image_line_at(image: &Vec<String>, i: usize) -> (line: String)
    ensures
        line@ == image_line(image.deep_view(), i as int),
{
    if i < image.len() {
        image[i].clone()
    } else {
        String::new()
    }
}

/// Lays `start` and `end` over the image block `image`. This never fails, whatever the
/// three lengths are: a text that is taller than the image makes the report taller.
pub fn overlay_lines(image: &Vec<String>, start: &Vec<String>, end: &Vec<String>) -> (lines: Vec<
    String,
>)
    ensures
        lines.deep_view() == overlay(image.deep_view(), start.deep_view(), end.deep_view()),
{
    let ghost im = image.deep_view();
    let ghost st = start.deep_view();
    let ghost en = end.deep_view();
    let mut lines: Vec<String> = Vec::new();
    if image.len() == 0 {
        let mut i: usize = 0;
        while i < start.len()
            invariant
                i <= start.len(),
                st == start.deep_view(),
                lines.deep_view() == st.take(i as int),
            decreases start.len() - i,
        {
            let ghost before = lines.deep_view();
            lines.push(start[i].clone());
            proof {
                assert(lines.deep_view() =~= before.push(st[i as int]));
                assert(st.take(i as int + 1) =~= st.take(i as int).push(st[i as int]));
            }
            i = i + 1;
        }
        let mut j: usize = 0;
        while j < end.len()
            invariant
                j <= end.len(),
                en == end.deep_view(),
                lines.deep_view() == st + en.take(j as int),
            decreases end.len() - j,
        {
            let ghost before = lines.deep_view();
            lines.push(end[j].clone());
            proof {
                assert(lines.deep_view() =~= before.push(en[j as int]));
                assert(st + en.take(j as int + 1) =~= (st + en.take(j as int)).push(en[j as int]));
            }
            j = j + 1;
        }
        proof {
            assert(st.take(start.len() as int) =~= st);
            assert(en.take(end.len() as int) =~= en);
        }
        lines
    } else {
        let ghost height = overlay_height(im.len(), st.len(), en.len());
        let ghost first_end = height - en.len();
        lines.push(image[0].clone());
        let mut i: usize = 0;
        while i < start.len()
            invariant
                i <= start.len(),
                im == image.deep_view(),
                st == start.deep_view(),
                en == end.deep_view(),
                lines@.len() == i + 1,
                forall|k: int| 0 <= k < lines@.len() ==> lines@[k]@ == overlay_line(im, st, en, k),
            decreases start.len() - i,
        {
            let mut line = image_line_at(image, lines.len());
            line.append(start[i].as_str());
            lines.push(line);
            i = i + 1;
        }
        while image.len() >= end.len() && lines.len() < image.len() - end.len()
            invariant
                im == image.deep_view(),
                st == start.deep_view(),
                en == end.deep_view(),
                height == overlay_height(im.len(), st.len(), en.len()),
                first_end == height - en.len(),
                st.len() + 1 <= lines@.len() <= first_end,
                forall|k: int| 0 <= k < lines@.len() ==> lines@[k]@ == overlay_line(im, st, en, k),
            decreases image.len() - lines.len(),
        {
            let line = image_line_at(image, lines.len());
            lines.push(line);
        }
        assert(lines@.len() == first_end);
        let mut j: usize = 0;
        while j < end.len()
            invariant
                j <= end.len(),
                im == image.deep_view(),
                st == start.deep_view(),
                en == end.deep_view(),
                height == overlay_height(im.len(), st.len(), en.len()),
                first_end == height - en.len(),
                lines@.len() == first_end + j,
                forall|k: int| 0 <= k < lines@.len() ==> lines@[k]@ == overlay_line(im, st, en, k),
            decreases end.len() - j,
        {
            let mut line = image_line_at(image, lines.len());
            line.append(end[j].as_str());
            lines.push(line);
            j = j + 1;
        }
        proof {
            assert(lines.deep_view() =~= overlay(im, st, en));
        }
        lines
    }
}

/// A recipe made ready for display.
#[derive(Debug)]
pub struct DisplayRecipe {
    pub id: u32,
    pub title: String,
    pub category: String,
    pub area: String,
    /// The ingredients with their quantities, in the order of the catalog.
    pub ingredients: Vec<(String, String)>,
    pub instructions: String,
    pub tutorial_url: String,
    pub youtube_url: String,
    pub image_url: String,
    /// The rendered image, one terminal line each; empty where there is none.
    pub image_msg: Vec<String>,
    /// The sections that the caller asked for.
    pub infos: Arc<Vec<Info>>,
}

/// What a `DisplayRecipe` holds, as plain texts.
pub ghost struct DisplayView {
    pub id: nat,
    pub title: Seq<char>,
    pub category: Seq<char>,
    pub area: Seq<char>,
    pub ingredients: Seq<(Seq<char>, Seq<char>)>,
    pub instructions: Seq<char>,
    pub tutorial_url: Seq<char>,
    pub youtube_url: Seq<char>,
    pub image_url: Seq<char>,
    pub image: Seq<Seq<char>>,
    pub infos: Seq<Info>,
}

impl View for DisplayRecipe {
    type V = DisplayView;

    open spec fn view(&self) -> DisplayView {
        DisplayView {
            id: self.id as nat,
            title: self.title@,
            category: self.category@,
            area: self.area@,
            ingredients: self.ingredients.deep_view(),
            instructions: self.instructions@,
            tutorial_url: self.tutorial_url@,
            youtube_url: self.youtube_url@,
            image_url: self.image_url@,
            image: self.image_msg.deep_view(),
            infos: self.infos@,
        }
    }
}

/// Both parts of every listed ingredient are non-empty.
pub open spec fn all_listed(ingredients: Seq<(Seq<char>, Seq<char>)>) -> bool {
    forall|i: int|
        0 <= i < ingredients.len() ==> (#[trigger] ingredients[i]).0.len() > 0
            && ingredients[i].1.len() > 0
}

/// The first line: the title with the identifier behind it.
pub open spec fn title_line(entity: DisplayView, labels: LabelTexts) -> Seq<char> {
    "\t"@ + labels.title + " : "@ + entity.title + " ("@ + decimal(entity.id) + ")"@
}

/// A line that consists of a label.
pub open spec fn label_line(label: Seq<char>) -> Seq<char> {
    "\t"@ + label
}

/// The line of an optional field; there is none where the field is empty.
pub open spec fn field_lines(label: Seq<char>, value: Seq<char>) -> Seq<Seq<char>> {
    if value.len() == 0 {
        Seq::empty()
    } else {
        seq!["\t"@ + label + " : "@ + value]
    }
}

/// The line of one ingredient.
pub open spec fn ingredient_line(name: Seq<char>, quantity: Seq<char>) -> Seq<char> {
    "\t\t - "@ + name + " ("@ + quantity + ")"@
}

/// One line for each ingredient.
pub open spec fn ingredient_lines(ingredients: Seq<(Seq<char>, Seq<char>)>) -> Seq<Seq<char>> {
    Seq::new(ingredients.len(), |i: int| ingredient_line(ingredients[i].0, ingredients[i].1))
}

/// The upper block of the text: title, separator, category and area where they are
/// known, the heading of the ingredients, and the ingredients.
pub open spec fn start_lines(entity: DisplayView, labels: LabelTexts) -> Seq<Seq<char>> {
    seq![title_line(entity, labels), label_line(labels.rule)] + field_lines(
        labels.category,
        entity.category,
    ) + field_lines(labels.area, entity.area) + seq![label_line(labels.ingredients)]
        + ingredient_lines(entity.ingredients)
}

/// The two lines of one link; there are none where the address is empty.
pub open spec fn link_lines(label: Seq<char>, url: Seq<char>) -> Seq<Seq<char>> {
    if url.len() == 0 {
        Seq::empty()
    } else {
        seq!["\t"@ + label + " :"@, "\t "@ + url]
    }
}

/// The lower block of the text: the links, where links are asked for.
pub open spec fn end_lines(entity: DisplayView, labels: LabelTexts) -> Seq<Seq<char>> {
    if shows_links(entity.infos) {
        link_lines(labels.tutorial, entity.tutorial_url) + link_lines(
            labels.youtube,
            entity.youtube_url,
        ) + link_lines(labels.image_url, entity.image_url)
    } else {
        Seq::empty()
    }
}

/// The image block that is shown: the rendered image where the image is asked for.
pub open spec fn shown_image(entity: DisplayView) -> Seq<Seq<char>> {
    if shows_image(entity.infos) {
        entity.image
    } else {
        Seq::empty()
    }
}

/// What follows the main block: the heading of the instructions and their wrapped lines,
/// where instructions are asked for and there are any.
pub open spec fn instructions_block(
    entity: DisplayView,
    labels: LabelTexts,
    wrapped_lines: Seq<Seq<char>>,
) -> Seq<char> {
    if shows_instructions(entity.infos) && entity.instructions.len() > 0 {
        "\n\n\t"@ + labels.instructions + "\n"@ + terminated(wrapped_lines, "\n"@)
    } else {
        Seq::empty()
    }
}

/// The whole report of `entity`, given the labels and the wrapped instructions.
pub open spec fn report(
    entity: DisplayView,
    labels: LabelTexts,
    wrapped_lines: Seq<Seq<char>>,
) -> Seq<char> {
    joined(
        overlay(shown_image(entity), start_lines(entity, labels), end_lines(entity, labels)),
        "\n"@,
    ) + instructions_block(entity, labels, wrapped_lines)
}

fn push_field(lines: &mut Vec<String>, label: &String, value: &String)
    ensures
        final(lines).deep_view() == old(lines).deep_view() + field_lines(label@, value@),
{
    let ghost before = lines.deep_view();
    if !value.as_str().is_empty() {
        let mut line = String::from_str("\t");
        line.append(label.as_str());
        line.append(" : ");
        line.append(value.as_str());
        lines.push(line);
    }
    assert(lines.deep_view() =~= before + field_lines(label@, value@));
}

fn push_link(lines: &mut Vec<String>, label: &String, url: &String)
    ensures
        final(lines).deep_view() == old(lines).deep_view() + link_lines(label@, url@),
{
    let ghost before = lines.deep_view();
    if !url.as_str().is_empty() {
        let mut head = String::from_str("\t");
        head.append(label.as_str());
        head.append(" :");
        lines.push(head);
        let mut line = String::from_str("\t ");
        line.append(url.as_str());
        lines.push(line);
    }
    assert(lines.deep_view() =~= before + link_lines(label@, url@));
}

impl DisplayRecipe {
    /// What the constructor of a display recipe establishes: no ingredient with an empty
    /// part is listed, and there is an image only where the image is asked for.
    pub open spec fn wf(&self) -> bool {
        &&& all_listed(self@.ingredients)
        &&& !shows_image(self@.infos) ==> self@.image.len() == 0
    }

    fn start_lines(&self, labels: &Labels) -> (lines: Vec<String>)
        ensures
            lines.deep_view() == start_lines(self@, labels@),
    {
        let mut lines: Vec<String> = Vec::new();
        let mut title = String::from_str("\t");
        title.append(labels.title.as_str());
        title.append(" : ");
        title.append(self.title.as_str());
        title.append(" (");
        push_decimal(&mut title, self.id);
        title.append(")");
        lines.push(title);
        let mut rule = String::from_str("\t");
        rule.append(labels.rule.as_str());
        lines.push(rule);
        assert(lines.deep_view() =~= seq![title_line(self@, labels@), label_line(labels@.rule)]);
        push_field(&mut lines, &labels.category, &self.category);
        push_field(&mut lines, &labels.area, &self.area);
        let ghost before = lines.deep_view();
        let mut heading = String::from_str("\t");
        heading.append(labels.ingredients.as_str());
        lines.push(heading);
        assert(lines.deep_view() =~= before + seq![label_line(labels@.ingredients)]);
        let ghost head = lines.deep_view();
        let ghost all = ingredient_lines(self@.ingredients);
        let mut i: usize = 0;
        while i < self.ingredients.len()
            invariant
                i <= self.ingredients.len(),
                all == ingredient_lines(self@.ingredients),
                lines.deep_view() == head + all.take(i as int),
            decreases self.ingredients.len() - i,
        {
            let ghost so_far = lines.deep_view();
            let mut line = String::from_str("\t\t - ");
            line.append(self.ingredients[i].0.as_str());
            line.append(" (");
            line.append(self.ingredients[i].1.as_str());
            line.append(")");
            lines.push(line);
            proof {
                assert(lines.deep_view() =~= so_far.push(all[i as int]));
                assert(head + all.take(i as int + 1) =~= (head + all.take(i as int)).push(
                    all[i as int],
                ));
            }
            i = i + 1;
        }
        proof {
            assert(all.take(self.ingredients.len() as int) =~= all);
        }
        lines
    }

    fn end_lines(&self, labels: &Labels) -> (lines: Vec<String>)
        ensures
            lines.deep_view() == end_lines(self@, labels@),
    {
        let mut lines: Vec<String> = Vec::new();
        assert(lines.deep_view() =~= Seq::<Seq<char>>::empty());
        if wants_links(&self.infos) {
            push_link(&mut lines, &labels.tutorial, &self.tutorial_url);
            push_link(&mut lines, &labels.youtube, &self.youtube_url);
            push_link(&mut lines, &labels.image_url, &self.image_url);
            assert(lines.deep_view() =~= end_lines(self@, labels@));
        }
        lines
    }

    /// Composes the report from the labels as they are to be printed and from the lines
    /// into which the instructions were wrapped.
    pub fn compose(&self, labels: &Labels, wrapped_lines: &Vec<String>) -> (text: String)
        ensures
            text@ == report(self@, labels@, wrapped_lines.deep_view()),
    {
        let start = self.start_lines(labels);
        let end = self.end_lines(labels);
        let no_image: Vec<String> = Vec::new();
        assert(no_image.deep_view() =~= Seq::<Seq<char>>::empty());
        let lines = if wants_image(&self.infos) {
            overlay_lines(&self.image_msg, &start, &end)
        } else {
            overlay_lines(&no_image, &start, &end)
        };
        let mut text = join_lines(&lines, "\n");
        if wants_instructions(&self.infos) && !self.instructions.as_str().is_empty() {
            text.append("\n\n\t");
            text.append(labels.instructions.as_str());
            text.append("\n");
            push_terminated(&mut text, wrapped_lines, "\n");
            assert(text@ =~= report(self@, labels@, wrapped_lines.deep_view()));
        } else {
            assert(text@ =~= report(self@, labels@, wrapped_lines.deep_view()));
        }
        text
    }

    /// The report with the given labels; the instructions are wrapped at `WRAP_WIDTH`
    /// columns behind a tab and a space.
    pub fn render_with(&self, labels: &Labels) -> (text: String)
        ensures
            text@ == report(
                self@,
                labels@,
                wrapped(self@.instructions, WRAP_WIDTH as nat, "\t "@),
            ),
    {
        if wants_instructions(&self.infos) && !self.instructions.as_str().is_empty() {
            let wrapped_lines = wrap(self.instructions.as_str(), WRAP_WIDTH, "\t ");
            self.compose(labels, &wrapped_lines)
        } else {
            let nothing: Vec<String> = Vec::new();
            self.compose(labels, &nothing)
        }
    }

    /// The report as it is printed, with red labels. Whether the labels carry escape
    /// sequences is decided by the terminal colour library, so the contract holds for
    /// some set of labels that are each red or unpainted.
    pub fn render(&self) -> (text: String)
        ensures
            exists|labels: LabelTexts|
                red_labels(labels) && text@ == #[trigger] report(
                    self@,
                    labels,
                    wrapped(self@.instructions, WRAP_WIDTH as nat, "\t "@),
                ),
    {
        let labels = Labels::painted();
        self.render_with(&labels)
    }
}

/// With an empty information level the report is the start lines alone, one below the
/// other: there is no image, no link and no instruction in it, whatever the recipe holds.
pub proof fn lemma_report_without_flags(
    entity: DisplayView,
    labels: LabelTexts,
    wrapped_lines: Seq<Seq<char>>,
)
    requires
        entity.infos.len() == 0,
    ensures
        report(entity, labels, wrapped_lines) == joined(start_lines(entity, labels), "\n"@),
{
    let start = start_lines(entity, labels);
    assert(overlay(shown_image(entity), start, end_lines(entity, labels)) =~= start);
    assert(report(entity, labels, wrapped_lines) =~= joined(start, "\n"@));
}

/// A report with an image block has a line for the top margin, one for each start line
/// and one for each end line, and it is never shorter than the image.
pub proof fn lemma_overlay_height(
    image: Seq<Seq<char>>,
    start: Seq<Seq<char>>,
    end: Seq<Seq<char>>,
)
    ensures
        image.len() == 0 ==> overlay(image, start, end).len() == start.len() + end.len(),
        image.len() > 0 ==> overlay(image, start, end).len() >= image.len(),
        image.len() > 0 ==> overlay(image, start, end).len() >= start.len() + end.len() + 1,
{
}

} // verus!
