//! How the tray icon presents each state of the dictation cycle.
use vstd::prelude::*;
use crate::app::State;

verus! {

broadcast use vstd::string::group_string_axioms;

/// The tray tooltip for each state.
pub open spec fn tooltip_text(state: State) -> Seq<char> {
    match state {
        State::Idle => "privatewhisper - idle"@,
        State::Recording => "privatewhisper - recording"@,
        State::Transcribing => "privatewhisper - transcribing"@,
    }
}

/// The tray tooltip for `state`.
pub fn tooltip_for(state: State) -> (r: &'static str)
    ensures
        r@ == tooltip_text(state),
{
    match state {
        State::Idle => "privatewhisper - idle",
        State::Recording => "privatewhisper - recording",
        State::Transcribing => "privatewhisper - transcribing",
    }
}

/// The icon colour for each state, as red, green, blue and alpha: teal when
/// idle, red while recording, blue while transcribing.
pub open spec fn icon_color(state: State) -> Seq<u8> {
    match state {
        State::Idle => seq![38u8, 166u8, 154u8, 255u8],
        State::Recording => seq![229u8, 57u8, 53u8, 255u8],
        State::Transcribing => seq![66u8, 133u8, 244u8, 255u8],
    }
}


/// The tray icon for `state`: a 32 by 32 square of its colour, as RGBA bytes,
/// row by row.
pub fn icon_rgba(state: State) -> (r: Vec<u8>)
    ensures
        r.len() == 32 * 32 * 4,
        forall|i: int| 0 <= i < r.len() ==> #[trigger] r@[i] == icon_color(state)[i % 4],
{
    let color: [u8; 4] = match state {
        State::Idle => [38, 166, 154, 255],
        State::Recording => [229, 57, 53, 255],
        State::Transcribing => [66, 133, 244, 255],
    };
    assert(color@ =~= icon_color(state));
    let mut rgba: Vec<u8> = Vec::new();
    let mut p: usize = 0;
    while p < 32 * 32
        invariant
            p <= 32 * 32,
            rgba.len() == 4 * p,
            color@ == icon_color(state),
            forall|i: int| 0 <= i < rgba.len() ==> #[trigger] rgba@[i] == color@[i % 4],
        decreases 32 * 32 - p,
    {
        let ghost base = rgba.len() as int;
        rgba.push(color[0]);
        rgba.push(color[1]);
        rgba.push(color[2]);
        rgba.push(color[3]);
        proof {
            assert forall|i: int| 0 <= i < rgba.len() implies #[trigger] rgba@[i] == color@[i % 4] by {
                if i >= base {
                    assert(base % 4 == 0) by (nonlinear_arith)
                        requires
                            base == 4 * p,
                    ;
                    assert(i % 4 == i - base) by (nonlinear_arith)
                        requires
                            base % 4 == 0,
                            base <= i < base + 4,
                    ;
                }
            }
        }
        p = p + 1;
    }
    rgba
}

/// Each state has its own tooltip and its own colour.
pub proof fn states_look_different(a: State, b: State)
    requires
        a != b,
    ensures
        tooltip_text(a) != tooltip_text(b),
        icon_color(a) != icon_color(b),
{
    reveal_strlit("privatewhisper - idle");
    reveal_strlit("privatewhisper - recording");
    reveal_strlit("privatewhisper - transcribing");
    assert(icon_color(a)[0] != icon_color(b)[0]);
    assert(tooltip_text(a).len() != tooltip_text(b).len());
}

/// The tray icon is opaque in every state, and its colour tells the states
/// apart by its dominant channel: red dominates exactly while recording, blue
/// exactly while transcribing, and the idle teal has more green than red.
pub proof fn icon_colours_by_state(state: State)
    ensures
        icon_color(state).len() == 4,
        icon_color(state)[3] == 255,
        (icon_color(state)[0] > icon_color(state)[1] && icon_color(state)[0] > icon_color(state)[2])
            <==> state == State::Recording,
        (icon_color(state)[2] > icon_color(state)[0] && icon_color(state)[2] > icon_color(state)[1])
            <==> state == State::Transcribing,
        state == State::Idle ==> icon_color(state)[1] > icon_color(state)[0],
        state == State::Transcribing ==> icon_color(state)[2] >= 200 && icon_color(state)[0] < 100,
{
}

} // verus!
