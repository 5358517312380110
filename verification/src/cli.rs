//! What the caller asks for: an optional keyword and the sections to show.

use vstd::prelude::*;

verus! {

/// One selector of the information level.
#[derive(Clone, Copy, Debug, PartialEq, Eq, Structural)]
pub enum Info {
    /// Everything: the image, the links and the instructions.
    All,
    /// The links.
    Links,
    /// The instructions to cook the meal.
    Instructions,
}

/// A parsed command line.
#[derive(Debug)]
pub struct Cli {
    /// The keyword to search for; a random recipe is fetched without one.
    pub keyword: Option<String>,
    /// The sections to show.
    pub infos: Vec<Info>,
}

/// The image is shown exactly when `All` is among the selectors.
pub open spec fn shows_image(infos: Seq<Info>) -> bool {
    infos.contains(Info::All)
}

/// The links are shown when `All` or `Links` is among the selectors.
pub open spec fn shows_links(infos: Seq<Info>) -> bool {
    infos.contains(Info::All) || infos.contains(Info::Links)
}

/// The instructions are shown when `All` or `Instructions` is among the selectors.
pub open spec fn shows_instructions(infos: Seq<Info>) -> bool {
    infos.contains(Info::All) || infos.contains(Info::Instructions)
}

/// The selectors that stand when the caller chose none.
pub open spec fn default_infos() -> Seq<Info> {
    seq![Info::All]
}

/// Whether `wanted` is among `infos`.
pub fn has_info(infos: &Vec<Info>, wanted: Info) -> (found: bool)
    ensures
        found == infos@.contains(wanted),
{
    let mut i: usize = 0;
    while i < infos.len()
        invariant
            i <= infos.len(),
            forall|k: int| 0 <= k < i ==> infos@[k] != wanted,
        decreases infos.len() - i,
    {
        if infos[i] == wanted {
            return true;
        }
        i = i + 1;
    }
    false
}

/// Whether the image is to be shown.
pub fn wants_image(infos: &Vec<Info>) -> (shown: bool)
    ensures
        shown == shows_image(infos@),
{
    has_info(infos, Info::All)
}

/// Whether the links are to be shown.
pub fn wants_links(infos: &Vec<Info>) -> (shown: bool)
    ensures
        shown == shows_links(infos@),
{
    has_info(infos, Info::All) || has_info(infos, Info::Links)
}

/// Whether the instructions are to be shown.
pub fn wants_instructions(infos: &Vec<Info>) -> (shown: bool)
    ensures
        shown == shows_instructions(infos@),
{
    has_info(infos, Info::All) || has_info(infos, Info::Instructions)
}

/// Puts a command line together from its two parts. Where no selector was chosen the
/// information level is `All`.
pub fn args(keyword: Option<String>, infos: Vec<Info>) -> (cli: Cli)
    ensures
        cli.keyword == keyword,
        cli.infos@ == if infos@.len() == 0 {
            default_infos()
        } else {
            infos@
        },
{
    if infos.len() == 0 {
        let mut chosen: Vec<Info> = Vec::new();
        chosen.push(Info::All);
        Cli { keyword, infos: chosen }
    } else {
        Cli { keyword, infos }
    }
}

} // verus!
