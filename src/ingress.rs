//! What a plain (non-upgrade) HTTP request asks of the turret, and which page answers it.
use crate::action::Action;
use crate::command_channel::{ChannelClosed, CommandChannel};
use vstd::prelude::*;

verus! {

/// A page the server answers with.
#[derive(Debug, Clone, Copy, PartialEq, Eq, Structural)]
pub enum Page {
    /// The viewer's start page.
    Index,
    /// The command was queued.
    Accepted,
    /// The command could not be queued.
    Rejected,
    /// Nothing lives at the requested path.
    NotFound,
}

/// What a request asks for.
#[derive(Debug, Clone, Copy, PartialEq, Eq, Structural)]
pub enum Route {
    /// Answer with a page.
    Show(Page),
    /// Queue an action, then answer with the page for the outcome.
    Command(Action),
    /// Answer with an empty body.
    Empty,
}

/// The request path that asks for `action`.
pub open spec fn command_path(action: Action) -> Seq<u8> {
    match action {
        Action::Left => seq!['/' as u8, 'l' as u8, 'e' as u8, 'f' as u8, 't' as u8],
        Action::Right => seq!['/' as u8, 'r' as u8, 'i' as u8, 'g' as u8, 'h' as u8, 't' as u8],
        Action::Shoot => seq!['/' as u8, 's' as u8, 'h' as u8, 'o' as u8, 'o' as u8, 't' as u8],
    }
}

/// The path of the start page.
pub open spec fn index_path() -> Seq<u8> {
    seq!['/' as u8]
}

/// What a request with this method and path asks for.
pub open spec fn route_of(is_get: bool, path: Seq<u8>) -> Route {
    if !is_get {
        Route::Empty
    } else if path == index_path() {
        Route::Show(Page::Index)
    } else if path == command_path(Action::Left) {
        Route::Command(Action::Left)
    } else if path == command_path(Action::Right) {
        Route::Command(Action::Right)
    } else if path == command_path(Action::Shoot) {
        Route::Command(Action::Shoot)
    } else {
        Route::Show(Page::NotFound)
    }
}

/// Whether two byte strings are equal.
fn same_bytes(a: &[u8], b: &[u8]) -> (r: bool)
    ensures
        r == (a@ == b@),
{
    if a.len() != b.len() {
        return false;
    }
    let mut i: usize = 0;
    while i < a.len()
        invariant
            a@.len() == b@.len(),
            i <= a@.len(),
            forall|j: int| 0 <= j < i ==> a@[j] == b@[j],
        decreases a@.len() - i,
    {
        if a[i] != b[i] {
            return false;
        }
        i = i + 1;
    }
    assert(a@ =~= b@);
    true
}

/// What a request with this method and path asks for; `is_get` says whether the method is GET.
pub fn route(is_get: bool, path: &[u8]) -> (r: Route)
    ensures
        r == route_of(is_get, path@),
{
    let index: [u8; 1] = ['/' as u8];
    let left: [u8; 5] = ['/' as u8, 'l' as u8, 'e' as u8, 'f' as u8, 't' as u8];
    let right: [u8; 6] = ['/' as u8, 'r' as u8, 'i' as u8, 'g' as u8, 'h' as u8, 't' as u8];
    let shoot: [u8; 6] = ['/' as u8, 's' as u8, 'h' as u8, 'o' as u8, 'o' as u8, 't' as u8];
    assert(index@ =~= index_path());
    assert(left@ =~= command_path(Action::Left));
    assert(right@ =~= command_path(Action::Right));
    assert(shoot@ =~= command_path(Action::Shoot));
    if !is_get {
        Route::Empty
    } else if same_bytes(path, &index) {
        Route::Show(Page::Index)
    } else if same_bytes(path, &left) {
        Route::Command(Action::Left)
    } else if same_bytes(path, &right) {
        Route::Command(Action::Right)
    } else if same_bytes(path, &shoot) {
        Route::Command(Action::Shoot)
    } else {
        Route::Show(Page::NotFound)
    }
}

/// The page that reports the outcome of queueing a command.
pub fn outcome_page(sent: Result<(), ChannelClosed>) -> (r: Page)
    ensures
        r == (if sent is Ok {
            Page::Accepted
        } else {
            Page::Rejected
        }),
{
    match sent {
        Ok(()) => Page::Accepted,
        Err(ChannelClosed) => Page::Rejected,
    }
}

/// Queues `action` and returns the page that reports the outcome.
pub fn submit(queue: &mut CommandChannel, action: Action) -> (r: Page)
    ensures
        old(queue).is_open() ==> r == Page::Accepted && final(queue).queued() == old(queue).queued().push(action)
            && final(queue).is_open(),
        !old(queue).is_open() ==> r == Page::Rejected && *final(queue) == *old(queue),
{
    outcome_page(queue.enqueue(action))
}

impl Page {
    /// The name of the file that holds this page.
    pub fn file_name(&self) -> (r: &'static str)
        ensures
            r@ == match *self {
                Page::Index => "index.html"@,
                Page::Accepted => "wegood.html"@,
                Page::Rejected => "wenotgood.html"@,
                Page::NotFound => "404.html"@,
            },
    {
        match self {
            Page::Index => "index.html",
            Page::Accepted => "wegood.html",
            Page::Rejected => "wenotgood.html",
            Page::NotFound => "404.html",
        }
    }
}

} // verus!
