//! Edge-triggered interaction dispatch for menu buttons.
//!
//! Each frame the host runtime classifies every interactive element as idle,
//! hovered or pressed. The dispatcher reacts only to elements whose state
//! changed since the previous frame: it recolors the element after its new
//! state and, exactly on a transition into the pressed state, reports the
//! element's identity so the caller can invoke the click handler with it.

use vstd::prelude::*;

verus! {

/// Identity attached to an interactive element; it routes a press to the
/// right handler logic.
#[derive(Clone, Copy, Debug, PartialEq, Eq, Structural)]
pub enum ButtonId {
    StartGame,
}

/// Pointer interaction state of an element, as classified by the host
/// runtime each frame.
#[derive(Clone, Copy, Debug, PartialEq, Eq, Structural)]
pub enum Interaction {
    Idle,
    Hovered,
    Pressed,
}

/// Symbolic presentation color of an element. The concrete channel values
/// each symbol is drawn with live in the `menu` module.
#[derive(Clone, Copy, Debug, PartialEq, Eq, Structural)]
pub enum ButtonColor {
    Base,
    Highlight,
    Accent,
}

/// The side effect a click handler asks the host to perform.
#[derive(Clone, Copy, Debug, PartialEq, Eq, Structural)]
pub enum MenuAction {
    CloseWindow,
}

/// An interactive element as the dispatcher sees it: its identity, its
/// current interaction state and its presentation color.
#[derive(Clone, Copy, Debug, PartialEq, Eq, Structural)]
pub struct Element {
    pub id: ButtonId,
    pub state: Interaction,
    pub color: ButtonColor,
}

/// The color owed to an interaction state: color is a pure function of state.
pub open spec fn color_for(s: Interaction) -> ButtonColor {
    match s {
        Interaction::Idle => ButtonColor::Base,
        Interaction::Hovered => ButtonColor::Highlight,
        Interaction::Pressed => ButtonColor::Accent,
    }
}

impl Element {
    /// An element is well formed when its color matches its state.
    pub open spec fn wf(self) -> bool {
        self.color == color_for(self.state)
    }

    /// A fresh element: idle, drawn in the base color.
    pub fn new(id: ButtonId) -> (e: Element)
        ensures
            e == (Element { id: id, state: Interaction::Idle, color: ButtonColor::Base }),
            e.wf(),
    {
        Element { id: id, state: Interaction::Idle, color: ButtonColor::Base }
    }
}

/// One frame's effect on an element the host reports in state `s`: an
/// element whose state did not change is left alone (the dispatcher is
/// edge-triggered); a changed one records the state and is recolored.
pub open spec fn frame_elem(e: Element, s: Interaction) -> Element {
    if s == e.state {
        e
    } else {
        Element { id: e.id, state: s, color: color_for(s) }
    }
}

/// The handler invocation one frame owes: the element's identity exactly on
/// a transition into the pressed state, nothing otherwise.
pub open spec fn frame_invoked(e: Element, s: Interaction) -> Option<ButtonId> {
    if s == Interaction::Pressed && e.state != Interaction::Pressed {
        Some(e.id)
    } else {
        None
    }
}

/// React to an element whose interaction state changed this frame: record
/// the new state, recolor after it, and on a press hand back the identity
/// the click handler must be invoked with.
pub fn apply_change(e: &mut Element, s: Interaction) -> (fired: Option<ButtonId>)
    requires
        old(e).state != s,
    ensures
        *final(e) == frame_elem(*old(e), s),
        final(e).wf(),
        fired == frame_invoked(*old(e), s),
{
    e.state = s;
    match s {
        Interaction::Pressed => {
            e.color = ButtonColor::Accent;
            Some(e.id)
        }
        Interaction::Hovered => {
            e.color = ButtonColor::Highlight;
            None
        }
        Interaction::Idle => {
            e.color = ButtonColor::Base;
            None
        }
    }
}

/// One full frame for one element: skip it when its state did not change,
/// react otherwise.
pub fn frame(e: &mut Element, s: Interaction) -> (fired: Option<ButtonId>)
    ensures
        *final(e) == frame_elem(*old(e), s),
        fired == frame_invoked(*old(e), s),
{
    if e.state == s {
        None
    } else {
        apply_change(e, s)
    }
}

/// The dispatcher's reaction to one state change the host reports for an
/// element: the color the element must be drawn in from now on, and whether
/// the click handler fires. A host that filters for changed elements itself
/// needs exactly this decision; the handler fires if and only if the change
/// is into the pressed state.
pub fn change_reaction(s: Interaction) -> (r: (ButtonColor, bool))
    ensures
        r.0 == color_for(s),
        r.1 == (s == Interaction::Pressed),
{
    match s {
        Interaction::Pressed => (ButtonColor::Accent, true),
        Interaction::Hovered => (ButtonColor::Highlight, false),
        Interaction::Idle => (ButtonColor::Base, false),
    }
}

/// The element after a whole sequence of frames, one host-reported state per
/// frame.
pub open spec fn elem_after(e: Element, states: Seq<Interaction>) -> Element
    decreases states.len(),
{
    if states.len() == 0 {
        e
    } else {
        frame_elem(elem_after(e, states.drop_last()), states.last())
    }
}

/// Every identity handed to the click handler over a sequence of frames, in
/// frame order.
pub open spec fn invocations(e: Element, states: Seq<Interaction>) -> Seq<ButtonId>
    decreases states.len(),
{
    if states.len() == 0 {
        Seq::empty()
    } else {
        let earlier = invocations(e, states.drop_last());
        match frame_invoked(elem_after(e, states.drop_last()), states.last()) {
            Some(id) => earlier.push(id),
            None => earlier,
        }
    }
}

/// Run the dispatcher over a whole interaction sequence, one state per
/// frame, and collect every identity it hands to the click handler.
pub fn run_frames(e: &mut Element, states: &Vec<Interaction>) -> (fired: Vec<ButtonId>)
    ensures
        *final(e) == elem_after(*old(e), states@),
        fired@ == invocations(*old(e), states@),
{
    let mut fired: Vec<ButtonId> = Vec::new();
    let mut i: usize = 0;
    while i < states.len()
        invariant
            i <= states@.len(),
            *e == elem_after(*old(e), states@.subrange(0, i as int)),
            fired@ == invocations(*old(e), states@.subrange(0, i as int)),
        decreases states@.len() - i,
    {
        let f = frame(e, states[i]);
        if let Some(id) = f {
            fired.push(id);
        }
        proof {
            let pre = states@.subrange(0, i as int);
            let post = states@.subrange(0, i as int + 1);
            assert(post.drop_last() =~= pre);
            assert(post.last() == states@[i as int]);
        }
        i = i + 1;
    }
    proof {
        assert(states@.subrange(0, states@.len() as int) =~= states@);
    }
    fired
}

/// The identities one frame owes to the click handler over a whole element
/// collection, element `k` being reported in state `states[k]`, in
/// enumeration order.
pub open spec fn invocations_all(elems: Seq<Element>, states: Seq<Interaction>) -> Seq<ButtonId>
    decreases elems.len(),
{
    if elems.len() == 0 {
        Seq::empty()
    } else {
        let earlier = invocations_all(elems.drop_last(), states.drop_last());
        match frame_invoked(elems.last(), states.last()) {
            Some(id) => earlier.push(id),
            None => earlier,
        }
    }
}

/// One frame of the dispatcher over every interactive element: each changed
/// element is recolored after its new state, and each transition into the
/// pressed state hands its element's identity to the click handler.
pub fn dispatch_frame(elems: &mut Vec<Element>, states: &Vec<Interaction>) -> (fired: Vec<ButtonId>)
    requires
        old(elems)@.len() == states@.len(),
    ensures
        final(elems)@.len() == old(elems)@.len(),
        forall|k: int|
            0 <= k < old(elems)@.len() ==> final(elems)@[k] == frame_elem(
                old(elems)@[k],
                states@[k],
            ),
        fired@ == invocations_all(old(elems)@, states@),
{
    let mut fired: Vec<ButtonId> = Vec::new();
    let mut i: usize = 0;
    while i < elems.len()
        invariant
            i <= elems@.len(),
            elems@.len() == old(elems)@.len(),
            elems@.len() == states@.len(),
            forall|k: int| 0 <= k < i ==> elems@[k] == frame_elem(old(elems)@[k], states@[k]),
            forall|k: int| i <= k < elems@.len() ==> elems@[k] == old(elems)@[k],
            fired@ == invocations_all(
                old(elems)@.subrange(0, i as int),
                states@.subrange(0, i as int),
            ),
        decreases elems@.len() - i,
    {
        let mut cur = elems[i];
        let f = frame(&mut cur, states[i]);
        elems.set(i, cur);
        if let Some(id) = f {
            fired.push(id);
        }
        proof {
            let epre = old(elems)@.subrange(0, i as int);
            let spre = states@.subrange(0, i as int);
            let epost = old(elems)@.subrange(0, i as int + 1);
            let spost = states@.subrange(0, i as int + 1);
            assert(epost.drop_last() =~= epre);
            assert(spost.drop_last() =~= spre);
            assert(epost.last() == old(elems)@[i as int]);
            assert(spost.last() == states@[i as int]);
        }
        i = i + 1;
    }
    proof {
        assert(old(elems)@.subrange(0, old(elems)@.len() as int) =~= old(elems)@);
        assert(states@.subrange(0, states@.len() as int) =~= states@);
    }
    fired
}

/// The action owed to each button identity.
pub open spec fn action_for(b: ButtonId) -> MenuAction {
    match b {
        ButtonId::StartGame => MenuAction::CloseWindow,
    }
}

/// The menu's click handler, as a decision: which action the host must
/// perform for a pressed button. For the start button it is closing the
/// application window.
pub fn click_action(b: ButtonId) -> (a: MenuAction)
    ensures
        a == action_for(b),
{
    match b {
        ButtonId::StartGame => MenuAction::CloseWindow,
    }
}

/// Law: an element that is never interacted with is never recolored — its
/// color stays the base color through every frame, however long the sequence
/// — and its handler never fires.
pub proof fn lemma_never_interacted(e: Element, states: Seq<Interaction>)
    requires
        e.state == Interaction::Idle,
        e.color == ButtonColor::Base,
        forall|i: int| 0 <= i < states.len() ==> states[i] == Interaction::Idle,
    ensures
        elem_after(e, states) == e,
        invocations(e, states).len() == 0,
    decreases states.len(),
{
    if states.len() > 0 {
        lemma_never_interacted(e, states.drop_last());
    }
}

/// Law: a transition into the hovered state recolors the element to the
/// highlight color and fires no handler.
pub proof fn lemma_hover_transition(e: Element)
    requires
        e.state != Interaction::Hovered,
    ensures
        frame_elem(e, Interaction::Hovered).color == ButtonColor::Highlight,
        frame_invoked(e, Interaction::Hovered) is None,
{
}

/// Law: a transition into the pressed state recolors the element to the
/// accent color and fires the handler exactly once, with that element's
/// identity.
pub proof fn lemma_press_transition(e: Element)
    requires
        e.state != Interaction::Pressed,
    ensures
        frame_elem(e, Interaction::Pressed).color == ButtonColor::Accent,
        frame_invoked(e, Interaction::Pressed) == Some(e.id),
{
}

/// Law: entering the pressed state and holding it for any number of frames
/// fires the handler exactly once — on the transition frame, with the
/// element's identity — never on the frames that merely hold the press.
pub proof fn lemma_press_and_hold(e: Element, states: Seq<Interaction>)
    requires
        e.state != Interaction::Pressed,
        states.len() > 0,
        forall|i: int| 0 <= i < states.len() ==> states[i] == Interaction::Pressed,
    ensures
        invocations(e, states) == seq![e.id],
        elem_after(e, states).state == Interaction::Pressed,
    decreases states.len(),
{
    if states.len() == 1 {
        assert(states.drop_last() =~= Seq::<Interaction>::empty());
        assert(states.last() == states[0]);
        assert(states[0] == Interaction::Pressed);
        assert(elem_after(e, states.drop_last()) == e);
        assert(invocations(e, states.drop_last()) =~= Seq::<ButtonId>::empty());
        assert(frame_invoked(e, states.last()) == Some(e.id));
        assert(invocations(e, states) =~= Seq::<ButtonId>::empty().push(e.id));
        assert(Seq::<ButtonId>::empty().push(e.id) =~= seq![e.id]);
    } else {
        lemma_press_and_hold(e, states.drop_last());
    }
}

/// Law: a transition from the pressed state back to idle resets the color to
/// the base color and fires no handler.
pub proof fn lemma_release_transition(e: Element)
    requires
        e.state == Interaction::Pressed,
    ensures
        frame_elem(e, Interaction::Idle).color == ButtonColor::Base,
        frame_invoked(e, Interaction::Idle) is None,
{
}

/// Law: every frame keeps an element well formed — its color stays the pure
/// function of its interaction state.
pub proof fn lemma_frame_preserves_wf(e: Element, s: Interaction)
    requires
        e.wf(),
    ensures
        frame_elem(e, s).wf(),
{
}

/// Law: a well-formed element stays well formed over any sequence of frames;
/// its color always equals `color_for` of its current state.
pub proof fn lemma_frames_preserve_wf(e: Element, states: Seq<Interaction>)
    requires
        e.wf(),
    ensures
        elem_after(e, states).wf(),
    decreases states.len(),
{
    if states.len() > 0 {
        lemma_frames_preserve_wf(e, states.drop_last());
    }
}

} // verus!

