//! The loop of the server: in which order requests are answered, how long it waits for
//! them, and what it does by the clock.

use vstd::prelude::*;
use crate::cli::words::opt_text;
use crate::server::request_effects::Request;
use crate::text::same;

verus! {

/// Whether a request shows what is on the screen, and so waits for those that change it.
pub open spec fn shows_screen(r: Request) -> bool {
    r == Request::DumpState || r == Request::DumpLayout || r == Request::WindowDump
}

/// Whether a request may have changed what clients show. Keys change it only once their echo has
/// come.
pub fn mutates_state(k: Request) -> (r: bool)
    ensures
        r == !(k == Request::DumpState || k == Request::SendText || k == Request::SendKey || k
            == Request::SendPaste || k == Request::WindowDump || k == Request::WindowLayout),
{
    !(k == Request::DumpState || k == Request::SendText || k == Request::SendKey || k == Request::SendPaste
        || k == Request::WindowDump || k == Request::WindowLayout)
}

/// Whether a request lends the focus to a window or a pane, for the next request only.
pub open spec fn lends_focus(r: Request) -> bool {
    r == Request::FocusWindowTemp || r == Request::FocusWindowByNameTemp || r
        == Request::FocusWindowByIdTemp || r == Request::FocusPaneTemp || r
        == Request::FocusPaneByIndexTemp
}

/// Whether the focus that was lent goes back once a request was answered.
pub fn restores_focus(k: Request) -> (r: bool)
    ensures
        r == !lends_focus(k),
{
    !(k == Request::FocusWindowTemp || k == Request::FocusWindowByNameTemp || k
        == Request::FocusWindowByIdTemp || k == Request::FocusPaneTemp || k
        == Request::FocusPaneByIndexTemp)
}

/// The places of the requests that show the screen, or of the others, in their order.
pub open spec fn places_of(requests: Seq<Request>, showing: bool) -> Seq<usize>
    decreases requests.len(),
{
    if requests.len() == 0 {
        Seq::empty()
    } else if shows_screen(requests.last()) == showing {
        places_of(requests.drop_last(), showing).push((requests.len() - 1) as usize)
    } else {
        places_of(requests.drop_last(), showing)
    }
}

/// The order in which requests are answered: those that show the screen come last; else they
/// stay in the order in which they came.
pub open spec fn answer_order(requests: Seq<Request>) -> Seq<usize> {
    places_of(requests, false) + places_of(requests, true)
}

fn collect_places(requests: &Vec<Request>, showing: bool) -> (r: Vec<usize>)
    ensures
        r@ == places_of(requests@, showing),
{
    let mut r: Vec<usize> = Vec::new();
    let mut i: usize = 0;
    while i < requests.len()
        invariant
            i <= requests.len(),
            r@ == places_of(requests@.take(i as int), showing),
        decreases requests.len() - i,
    {
        let k: Request = requests[i];
        assert(requests@.take(i + 1).drop_last() =~= requests@.take(i as int));
        if (k == Request::DumpState || k == Request::DumpLayout || k == Request::WindowDump) == showing {
            r.push(i);
        }
        i += 1;
    }
    assert(requests@.take(i as int) =~= requests@);
    r
}

/// The order in which requests are answered.
pub fn order_requests(requests: &Vec<Request>) -> (r: Vec<usize>)
    ensures
        r@ == answer_order(requests@),
{
    let mut r = collect_places(requests, false);
    let mut showing = collect_places(requests, true);
    r.append(&mut showing);
    r
}

proof fn lemma_places(requests: Seq<Request>, showing: bool)
    requires
        requests.len() <= usize::MAX,
    ensures
        forall|i: int|
            0 <= i < places_of(requests, showing).len() ==> #[trigger] places_of(requests, showing)[i]
                < requests.len() && shows_screen(requests[places_of(requests, showing)[i] as int]) == showing,
        forall|i: int, j: int|
            0 <= i < j < places_of(requests, showing).len() ==> #[trigger] places_of(requests, showing)[i]
                < #[trigger] places_of(requests, showing)[j],
        forall|p: int|
            0 <= p < requests.len() && shows_screen(#[trigger] requests[p]) == showing ==> places_of(
                requests,
                showing,
            ).contains(p as usize),
    decreases requests.len(),
{
    if requests.len() > 0 {
        let front = requests.drop_last();
        lemma_places(front, showing);
        let old_places = places_of(front, showing);
        let new_places = places_of(requests, showing);
        assert forall|i: int| 0 <= i < new_places.len() implies #[trigger] new_places[i] < requests.len()
            && shows_screen(requests[new_places[i] as int]) == showing by {
            if i < old_places.len() {
                assert(new_places[i] == old_places[i]);
                assert(requests[old_places[i] as int] == front[old_places[i] as int]);
            }
        }
        assert forall|i: int, j: int| 0 <= i < j < new_places.len() implies #[trigger] new_places[i]
            < #[trigger] new_places[j] by {
            assert(new_places[i] == old_places[i]);
            if j < old_places.len() {
                assert(new_places[j] == old_places[j]);
            }
        }
        assert forall|p: int|
            0 <= p < requests.len() && shows_screen(#[trigger] requests[p]) == showing implies new_places.contains(
            p as usize,
        ) by {
            if p < front.len() {
                assert(front[p] == requests[p]);
                let k = old_places.index_of(p as usize);
                assert(new_places[k] == p as usize);
            } else {
                assert(new_places[old_places.len() as int] == p as usize);
            }
        }
    }
}

/// Every request is answered once; those that show the screen come after all others; and
/// among either sort none overtakes another.
pub proof fn requests_keep_their_order(requests: Seq<Request>, i: int, j: int)
    requires
        requests.len() <= usize::MAX,
        0 <= i < j < answer_order(requests).len(),
    ensures
        answer_order(requests)[i] < requests.len() && answer_order(requests)[j] < requests.len(),
        answer_order(requests)[i] != answer_order(requests)[j],
        shows_screen(requests[answer_order(requests)[i] as int]) ==> shows_screen(
            requests[answer_order(requests)[j] as int],
        ),
        shows_screen(requests[answer_order(requests)[i] as int]) == shows_screen(
            requests[answer_order(requests)[j] as int],
        ) ==> answer_order(requests)[i] < answer_order(requests)[j],
{
    lemma_places(requests, false);
    lemma_places(requests, true);
    let first = places_of(requests, false);
    let order = answer_order(requests);
    if j < first.len() {
        assert(order[i] == first[i] && order[j] == first[j]);
    } else if i >= first.len() {
        assert(order[i] == places_of(requests, true)[i - first.len()]);
        assert(order[j] == places_of(requests, true)[j - first.len()]);
    } else {
        assert(order[i] == first[i]);
        assert(order[j] == places_of(requests, true)[j - first.len()]);
    }
}

/// No request is left out.
pub proof fn every_request_is_answered(requests: Seq<Request>, p: int)
    requires
        requests.len() <= usize::MAX,
        0 <= p < requests.len(),
    ensures
        answer_order(requests).contains(p as usize),
{
    let showing = shows_screen(requests[p]);
    lemma_places(requests, showing);
    let k = places_of(requests, showing).index_of(p as usize);
    if showing {
        assert(answer_order(requests)[places_of(requests, false).len() + k] == p as usize);
    } else {
        assert(answer_order(requests)[k] == p as usize);
    }
}

/// How long the loop waits for a request, in milliseconds: hardly, while the echo of a key
/// is awaited or a pane has put something out; longer once no client was heard of for two
/// seconds. `echo_age` is how long ago keys were sent.
pub fn poll_timeout(echo_age: Option<u64>, data_ready: bool, idle_secs: u64, pushing: bool) -> (r: u64)
    ensures
        r == (if (echo_age is Some && echo_age->0 < 50) || data_ready {
            1u64
        } else if idle_secs < 2 {
            5
        } else if pushing {
            16
        } else {
            50
        }),
{
    let echo: bool = match echo_age {
        Some(age) => age < 50,
        None => false,
    };
    if echo || data_ready {
        1
    } else if idle_secs < 2 {
        5
    } else if pushing {
        16
    } else {
        50
    }
}

/// Whether the hooks of the status interval run: it is no shorter than the interval since
/// they did. An interval of nothing switches them off.
pub fn status_interval_due(interval: u64, elapsed_secs: u64) -> (r: bool)
    ensures
        r == (interval > 0 && elapsed_secs >= interval),
{
    interval > 0 && elapsed_secs >= interval
}

/// What lies over the panes, as far as the clock closes it.
#[derive(Clone, Copy, PartialEq, Eq, Structural, Debug)]
pub enum TimedOverlay {
    /// The numbers of the panes, which have been shown for so many milliseconds.
    PaneNumbers { shown_ms: u64 },
    /// A window with a program: whether the program has ended, and whether the window goes
    /// with it.
    Popup { ended: bool, close_on_exit: bool },
    /// Anything else, or nothing.
    Other,
}

/// Whether what lies over the panes is closed by now. `display_ms` is how long the numbers of
/// the panes are shown.
pub fn overlay_times_out(o: TimedOverlay, display_ms: u64) -> (r: bool)
    ensures
        r == (match o {
            TimedOverlay::PaneNumbers { shown_ms } => shown_ms > display_ms,
            TimedOverlay::Popup { ended, close_on_exit } => ended && close_on_exit,
            TimedOverlay::Other => false,
        }),
{
    match o {
        TimedOverlay::PaneNumbers { shown_ms } => shown_ms > display_ms,
        TimedOverlay::Popup { ended, close_on_exit } => ended && close_on_exit,
        TimedOverlay::Other => false,
    }
}

/// What the automatic name of a window comes from.
pub struct NameSource {
    /// Whether the window was named by hand.
    pub manual: bool,
    /// Whether the pane that has the focus is dead.
    pub dead: bool,
    /// How long ago its name was looked for, in milliseconds.
    pub since_check_ms: u64,
    /// Whether its process is known.
    pub has_process: bool,
    /// The name of the program in its foreground, if there is one.
    pub foreground: Option<String>,
    /// The title of the pane.
    pub pane_title: String,
    /// The title that the screen was given.
    pub screen_title: String,
}

/// Whether the name of a window is looked for: windows that were named by hand keep their
/// names, and the others are looked at once in a second.
pub open spec fn name_due(s: NameSource, automatic: bool, allowed: bool, in_copy: bool) -> bool {
    (automatic || allowed) && !in_copy && !s.manual && !s.dead && s.since_check_ms >= 1000
}

/// The name that a window gets, if it gets one: that of the program in the foreground where
/// names are automatic, else the title that the program gave.
pub open spec fn found_name(s: NameSource, automatic: bool, allowed: bool) -> Option<Seq<char>> {
    let found = if automatic {
        if s.has_process {
            opt_text(s.foreground)
        } else if allowed {
            Some(s.pane_title@)
        } else {
            None
        }
    } else if allowed {
        Some(s.screen_title@)
    } else {
        None
    };
    match found {
        Some(n) => if n.len() > 0 {
            Some(n)
        } else {
            None
        },
        None => None,
    }
}

/// Whether the name of a window is looked for, and its new name, if it gets another one
/// than it has.
pub fn automatic_name(s: &NameSource, name: &str, automatic: bool, allowed: bool, in_copy: bool) -> (r: (
    bool,
    Option<String>,
))
    ensures
        r.0 == name_due(*s, automatic, allowed, in_copy),
        opt_text(r.1) == (if name_due(*s, automatic, allowed, in_copy) && found_name(*s, automatic, allowed)
            != Some(name@) {
            found_name(*s, automatic, allowed)
        } else {
            None
        }),
{
    if !((automatic || allowed) && !in_copy && !s.manual && !s.dead && s.since_check_ms >= 1000) {
        return (false, None);
    }
    let found: Option<String> = if automatic {
        if s.has_process {
            s.foreground.clone()
        } else if allowed {
            Some(s.pane_title.clone())
        } else {
            None
        }
    } else if allowed {
        Some(s.screen_title.clone())
    } else {
        None
    };
    match found {
        Some(n) => if n.as_str().unicode_len() > 0 && !same(n.as_str(), name) {
            (true, Some(n))
        } else {
            (true, None)
        },
        None => (true, None),
    }
}

/// Whether the server ends its session: no window is left, and the session does not outlive its
/// windows.
pub fn session_ends(exit_empty: bool, all_empty: bool) -> (r: bool)
    ensures
        r == (exit_empty && all_empty),
{
    exit_empty && all_empty
}

} // verus!
