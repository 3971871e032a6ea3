//! Laws relating the coordinator's transitions to one another: what holds of
//! a request made twice, of requests racing a pending transition, and of
//! toggle against plain open and close.

use vstd::prelude::*;

use crate::coordinator::close_step;
use crate::coordinator::completion_response;
use crate::coordinator::open_step;
use crate::coordinator::pane_opened_step;
use crate::coordinator::toggle_step;
use crate::messages::CommandConfigV;
use crate::messages::EffectV;
use crate::messages::ErrorKindV;
use crate::messages::ResponseV;
use crate::messages::ToggleAction;
use crate::messages::WarningKind;
use crate::registry::PaneStateV;

verus! {

/// An identifier enters the registry only when an open or toggle request
/// starts a transition for it, and no request row ever drops an entry: open
/// and toggle add exactly the requested identifier when it is absent, close
/// and the pane-opened reconciliation keep the tracked identifiers as they
/// are.  (Only a pane-exited reconciliation of a `Closing` entry removes
/// one: `handle_pane_exited_event` states that.)
pub proof fn lemma_registry_tracks_requests(
    m: Map<Seq<char>, PaneStateV>,
    pipe_id: Seq<char>,
    pane_id: Seq<char>,
    config: CommandConfigV,
    context_pane_id: Option<Seq<char>>,
    zellij_pane_id: u32,
)
    ensures
        open_step(m, pipe_id, pane_id, config).0.dom() =~= m.dom().insert(pane_id),
        toggle_step(m, pipe_id, pane_id, config).0.dom() =~= m.dom().insert(pane_id),
        close_step(m, pipe_id, pane_id).0.dom() =~= m.dom(),
        pane_opened_step(m, context_pane_id, zellij_pane_id).0.dom() =~= m.dom(),
        !m.contains_key(pane_id) ==> open_step(m, pipe_id, pane_id, config).0[pane_id]
            is Opening,
{
    if m.contains_key(pane_id) {
        assert(open_step(m, pipe_id, pane_id, config).0.dom() =~= m.dom().insert(pane_id));
        assert(toggle_step(m, pipe_id, pane_id, config).0.dom() =~= m.dom().insert(pane_id));
    }
    match context_pane_id {
        Option::None => {},
        Option::Some(candidate) => {
            if m.contains_key(candidate) && m[candidate] is Opening {
                assert(pane_opened_step(m, context_pane_id, zellij_pane_id).0.dom() =~= m.dom());
            }
        },
    }
}

/// An identifier is tracked from the moment its open is requested until the
/// transition completes: a close requested before the open completes is
/// refused with `pane is opening`, leaves the registry as it was, and asks
/// the host to terminate nothing.
pub proof fn lemma_close_while_opening(
    m: Map<Seq<char>, PaneStateV>,
    pipe_open: Seq<char>,
    pipe_close: Seq<char>,
    pane_id: Seq<char>,
    config: CommandConfigV,
)
    requires
        !m.contains_key(pane_id),
    ensures
        ({
            let first = open_step(m, pipe_open, pane_id, config);
            let second = close_step(first.0, pipe_close, pane_id);
            &&& first.0.contains_key(pane_id)
            &&& first.0[pane_id] is Opening
            &&& second.1 == EffectV::Reply(ResponseV::Error(ErrorKindV::PaneIsOpening))
            &&& second.0 == first.0
        }),
{
}

/// Requesting open twice in a row before any completion answers the second
/// request with `pane is already opening`, changes nothing, and never issues
/// a second create command.
pub proof fn lemma_second_open_warns(
    m: Map<Seq<char>, PaneStateV>,
    pipe_first: Seq<char>,
    pipe_second: Seq<char>,
    pane_id: Seq<char>,
    config_first: CommandConfigV,
    config_second: CommandConfigV,
)
    requires
        !m.contains_key(pane_id),
    ensures
        ({
            let first = open_step(m, pipe_first, pane_id, config_first);
            let second = open_step(first.0, pipe_second, pane_id, config_second);
            &&& first.1 is Dispatch
            &&& second.1 == EffectV::Reply(ResponseV::Warning(WarningKind::AlreadyOpening))
            &&& second.0 == first.0
        }),
{
}

/// A pane-opened notification whose embedded identifier is absent from the
/// registry, or present but not `Opening`, alters nothing and emits no
/// response.
pub proof fn lemma_uncorrelated_completion_ignored(
    m: Map<Seq<char>, PaneStateV>,
    context_pane_id: Option<Seq<char>>,
    zellij_pane_id: u32,
)
    requires
        match context_pane_id {
            Option::None => true,
            Option::Some(pane_id) => !m.contains_key(pane_id) || !(m[pane_id] is Opening),
        },
    ensures
        pane_opened_step(m, context_pane_id, zellij_pane_id).0 == m,
        pane_opened_step(m, context_pane_id, zellij_pane_id).1 is None,
{
}

/// Toggle on an absent identifier behaves exactly like open: it dispatches
/// the same create command, records the same entry but for the toggle flag,
/// and after the same completion notification leaves the same registry —
/// only the response shape differs (`action: opened` against plain success).
pub proof fn lemma_toggle_on_absent_is_open(
    m: Map<Seq<char>, PaneStateV>,
    pipe_id: Seq<char>,
    pane_id: Seq<char>,
    config: CommandConfigV,
    zellij_pane_id: u32,
)
    requires
        !m.contains_key(pane_id),
    ensures
        ({
            let plain = open_step(m, pipe_id, pane_id, config);
            let toggled = toggle_step(m, pipe_id, pane_id, config);
            &&& toggled.1 == plain.1
            &&& plain.0 == m.insert(
                pane_id,
                PaneStateV::Opening { pipe_id, is_toggle: false },
            )
            &&& toggled.0 == m.insert(pane_id, PaneStateV::Opening { pipe_id, is_toggle: true })
        }),
        ({
            let plain_done = pane_opened_step(
                open_step(m, pipe_id, pane_id, config).0,
                Option::Some(pane_id),
                zellij_pane_id,
            );
            let toggled_done = pane_opened_step(
                toggle_step(m, pipe_id, pane_id, config).0,
                Option::Some(pane_id),
                zellij_pane_id,
            );
            &&& plain_done.0 == toggled_done.0
            &&& plain_done.1 == Option::Some((pipe_id, ResponseV::Success))
            &&& toggled_done.1 == Option::Some(
                (pipe_id, ResponseV::Toggled(ToggleAction::Opened)),
            )
        }),
{
    let plain_done = pane_opened_step(
        open_step(m, pipe_id, pane_id, config).0,
        Option::Some(pane_id),
        zellij_pane_id,
    );
    let toggled_done = pane_opened_step(
        toggle_step(m, pipe_id, pane_id, config).0,
        Option::Some(pane_id),
        zellij_pane_id,
    );
    assert(plain_done.0 =~= toggled_done.0);
}

/// Toggle on an `Opened` identifier behaves exactly like close: it
/// dispatches the same terminate command and records the same `Closing`
/// entry but for the toggle flag; the deferred responses owed at completion
/// differ only in shape (`action: closed` against plain success).
pub proof fn lemma_toggle_on_opened_is_close(
    m: Map<Seq<char>, PaneStateV>,
    pipe_id: Seq<char>,
    pane_id: Seq<char>,
    config: CommandConfigV,
    zellij_pane_id: u32,
)
    requires
        m.contains_key(pane_id),
        m[pane_id] == (PaneStateV::Opened { zellij_pane_id }),
    ensures
        ({
            let plain = close_step(m, pipe_id, pane_id);
            let toggled = toggle_step(m, pipe_id, pane_id, config);
            &&& toggled.1 == plain.1
            &&& plain.0 == m.insert(
                pane_id,
                PaneStateV::Closing { zellij_pane_id, pipe_id, is_toggle: false },
            )
            &&& toggled.0 == m.insert(
                pane_id,
                PaneStateV::Closing { zellij_pane_id, pipe_id, is_toggle: true },
            )
        }),
        completion_response(false, ToggleAction::Closed) == ResponseV::Success,
        completion_response(true, ToggleAction::Closed) == ResponseV::Toggled(
            ToggleAction::Closed,
        ),
{
}

} // verus!
