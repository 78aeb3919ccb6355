//! The dispatcher: from a chosen name to the action that the operating
//! system is asked for.

use vstd::prelude::*;
use crate::config::Config;

verus! {

/// The two kinds of target.
#[derive(Clone, Copy, Debug, PartialEq, Eq, Structural)]
pub enum Category {
    Url,
    Program,
}

/// What the caller has to do for a chosen name.
#[derive(Clone, Debug, PartialEq, Eq)]
pub enum Dispatch {
    /// Open this URL with the default handler.
    OpenUrl(String),
    /// Launch the program at this path.
    LaunchProgram(String),
    /// The name is not configured: report it, and do nothing else.
    NotFound,
}

/// The mathematical reading of a [`Dispatch`].
pub enum DispatchView {
    OpenUrl(Seq<char>),
    LaunchProgram(Seq<char>),
    NotFound,
}

impl View for Dispatch {
    type V = DispatchView;

    open spec fn view(&self) -> DispatchView {
        match self {
            Dispatch::OpenUrl(url) => DispatchView::OpenUrl(url@),
            Dispatch::LaunchProgram(path) => DispatchView::LaunchProgram(path@),
            Dispatch::NotFound => DispatchView::NotFound,
        }
    }
}

/// The mapping in which names of `category` are looked up.
pub open spec fn targets_of(
    urls: Map<Seq<char>, Seq<char>>,
    programs: Map<Seq<char>, Seq<char>>,
    category: Category,
) -> Map<Seq<char>, Seq<char>> {
    match category {
        Category::Url => urls,
        Category::Program => programs,
    }
}

/// What is dispatched for `name` in `category`: the action on the target
/// that the name stands for, or `NotFound` for a name that stands for none.
pub open spec fn dispatch_of(
    urls: Map<Seq<char>, Seq<char>>,
    programs: Map<Seq<char>, Seq<char>>,
    category: Category,
    name: Seq<char>,
) -> DispatchView {
    let targets = targets_of(urls, programs, category);
    if targets.contains_key(name) {
        match category {
            Category::Url => DispatchView::OpenUrl(targets[name]),
            Category::Program => DispatchView::LaunchProgram(targets[name]),
        }
    } else {
        DispatchView::NotFound
    }
}

/// Resolves `name` in `category` and says what is to be done for it.
pub fn dispatch(config: &Config, category: Category, name: &str) -> (action: Dispatch)
    ensures
        action@ == dispatch_of(config.urls(), config.programs(), category, name@),
{
    match category {
        Category::Url => match config.resolve_url(name) {
            Some(url) => Dispatch::OpenUrl(url.clone()),
            None => Dispatch::NotFound,
        },
        Category::Program => match config.resolve_program(name) {
            Some(path) => Dispatch::LaunchProgram(path.clone()),
            None => Dispatch::NotFound,
        },
    }
}

} // verus!
