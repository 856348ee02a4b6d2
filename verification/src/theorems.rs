//! What holds of the driver over several steps, proved from the
//! transitions that the entry points implement.

use vstd::prelude::*;
use crate::driver::{Completion, EffectsView, Operation, State};
use crate::error::ErrorCode;
use crate::glyph::{glyph_of, DIGITS, LETTERS};
use crate::render::{blank_frame, frame_for, frame_of, lit, picture_of, Picture};
use crate::scroll::ScrollView;

verus! {

impl ScrollView {
    /// The buffer after `ticks` steps.
    pub open spec fn after(self, ticks: nat) -> ScrollView
        decreases ticks,
    {
        if ticks == 0 {
            self
        } else {
            self.after((ticks - 1) as nat).advanced()
        }
    }
}

impl State {
    /// The state after `ticks` timer ticks with nothing in between.
    pub open spec fn after_ticks(self, ticks: nat) -> State
        decreases ticks,
    {
        if ticks == 0 {
            self
        } else {
            self.after_ticks((ticks - 1) as nat).ticked()
        }
    }
}

/// The index reached from `start` by `ticks` steps around `len` bytes.
pub open spec fn around(start: nat, ticks: nat, len: nat) -> int {
    (start as int + ticks as int) % (len as int)
}

/// Counting up modulo `n` either moves to the next residue or wraps to 0.
pub proof fn lemma_successor_mod(a: int, n: int)
    requires
        0 <= a,
        0 < n,
    ensures
        (a + 1) % n == if a % n + 1 == n {
            0
        } else {
            a % n + 1
        },
{
    vstd::arithmetic::div_mod::lemma_fundamental_div_mod(a, n);
    vstd::arithmetic::div_mod::lemma_mod_bound(a, n);
    let q = a / n;
    let r = a % n;
    if r + 1 == n {
        assert(a + 1 == (q + 1) * n + 0) by (nonlinear_arith)
            requires
                a == n * q + r,
                r + 1 == n,
        ;
        vstd::arithmetic::div_mod::lemma_fundamental_div_mod_converse(a + 1, n, q + 1, 0);
    } else {
        assert(a + 1 == q * n + (r + 1)) by (nonlinear_arith)
            requires
                a == n * q + r,
        ;
        vstd::arithmetic::div_mod::lemma_fundamental_div_mod_converse(a + 1, n, q, r + 1);
    }
}

/// Every glyph of the database is a 25-bit mask.
pub proof fn lemma_glyphs_have_25_bits(c: char)
    ensures
        match glyph_of(c) {
            Some(glyph) => glyph < 0x200_0000,
            None => true,
        },
{
    assert(forall|i: int| 0 <= i < 10 ==> DIGITS[i] < 0x200_0000);
    assert(forall|i: int| 0 <= i < 26 ==> LETTERS[i] < 0x200_0000);
}

/// Exactly the ASCII digits and the ASCII letters of either case have a
/// glyph.
pub proof fn lemma_lookup_domain(c: char)
    ensures
        glyph_of(c) is Some <==> ('0' <= c <= '9' || 'A' <= c <= 'Z' || 'a' <= c <= 'z'),
{
}

/// Lookup does not tell a lowercase letter from its uppercase form.
pub proof fn lemma_lookup_folds_case(lower: char, upper: char)
    requires
        'a' <= lower <= 'z',
        upper as int == lower as int - 32,
    ensures
        glyph_of(lower) == glyph_of(upper),
        glyph_of(lower) is Some,
{
}

/// The blank frame has 25 elements, all off; the frame of a glyph has 25
/// elements, and element `i` is on exactly where bit `24 - i` of the mask
/// is set.
pub proof fn lemma_frames(glyph: u32, index: int)
    requires
        0 <= index < 25,
    ensures
        blank_frame().len() == 25,
        !blank_frame()[index],
        frame_of(Picture::Glyph(glyph)).len() == 25,
        frame_of(Picture::Glyph(glyph))[index] == lit(glyph, index),
{
}

/// Steps keep the text and its effective length, and walk the cursor
/// through the valid indices cyclically: `ticks` steps move it from `c` to
/// `(c + ticks) % len`. So the cursor is back at 0 whenever `c + ticks` is a
/// multiple of the length, and before that every index up to the length has
/// had its turn.
pub proof fn lemma_scroll_cycles(scroll: ScrollView, ticks: nat)
    requires
        scroll.wf(),
        scroll.len > 0,
    ensures
        scroll.after(ticks).wf(),
        scroll.after(ticks).text == scroll.text,
        scroll.after(ticks).len == scroll.len,
        scroll.after(ticks).cursor() == around(scroll.cursor(), ticks, scroll.len),
        ticks > 0 ==> scroll.after(ticks).position == around(
            scroll.cursor(),
            (ticks - 1) as nat,
            scroll.len,
        ) + 1,
    decreases ticks,
{
    let len = scroll.len as int;
    if ticks == 0 {
        vstd::arithmetic::div_mod::lemma_small_mod(scroll.cursor(), scroll.len);
    } else {
        let before = (ticks - 1) as nat;
        lemma_scroll_cycles(scroll, before);
        lemma_successor_mod(scroll.cursor() as int + before as int, len);
        vstd::arithmetic::div_mod::lemma_mod_bound(scroll.cursor() as int + before as int, len);
    }
}

/// From any cursor the scroll is back at the first byte after the steps
/// that are left of the current round, and one full round of `len` steps
/// brings the cursor back to where it is.
pub proof fn lemma_scroll_wraps(scroll: ScrollView)
    requires
        scroll.wf(),
        scroll.len > 0,
    ensures
        scroll.after((scroll.len - scroll.cursor()) as nat).cursor() == 0,
        scroll.after(scroll.len).cursor() == scroll.cursor(),
{
    let len = scroll.len as int;
    let cursor = scroll.cursor() as int;
    lemma_scroll_cycles(scroll, (scroll.len - scroll.cursor()) as nat);
    lemma_scroll_cycles(scroll, scroll.len);
    vstd::arithmetic::div_mod::lemma_mod_self_0(len);
    vstd::arithmetic::div_mod::lemma_mod_add_multiples_vanish(cursor, len);
    vstd::arithmetic::div_mod::lemma_small_mod(scroll.cursor(), scroll.len);
}

/// An empty buffer stays as cleared under any number of steps, renders
/// nothing, and never asks for the timer.
pub proof fn lemma_empty_scroll_rests(scroll: ScrollView, ticks: nat)
    requires
        scroll.len == 0,
        scroll.position == 0,
    ensures
        scroll.after(ticks) == scroll,
        scroll.next_frame(true) is None,
        scroll.next_frame(false) is None,
    decreases ticks,
{
    if ticks > 0 {
        lemma_empty_scroll_rests(scroll, (ticks - 1) as nat);
    }
}

/// Timer ticks change nothing but the scroll buffer, whatever the state.
pub proof fn lemma_ticks_only_scroll(state: State, ticks: nat)
    ensures
        state.after_ticks(ticks) == (State { scroll: state.scroll.after(ticks), ..state }),
    decreases ticks,
{
    if ticks > 0 {
        lemma_ticks_only_scroll(state, (ticks - 1) as nat);
    }
}

/// After any state with text on display, the tick that follows `ticks`
/// earlier ones renders the byte at index `(c + ticks) % len`, where `c` is
/// the cursor now, and arms the timer at the current speed: the frames
/// repeat the text cyclically.
pub proof fn lemma_ticks_render_cyclically(state: State, ticks: nat)
    requires
        state.wf(),
        state.scroll.len > 0,
    ensures
        state.after_ticks(ticks).wf(),
        state.after_ticks(ticks).tick_effects() == (EffectsView {
            frame: Some(
                frame_for(
                    state.scroll.text[around(state.scroll.cursor(), ticks, state.scroll.len)],
                    state.enabled,
                ),
            ),
            alarm: Some(state.speed),
            deferred: None,
        }),
{
    lemma_ticks_only_scroll(state, ticks);
    lemma_scroll_cycles(state.scroll, ticks);
}

/// An accepted print of `count` bytes into an empty buffer renders the
/// first byte at once and leaves exactly those bytes to scroll: the tick
/// that follows `ticks` earlier ones renders byte `(1 + ticks) % count` of
/// the client's buffer, so the position wraps to the start after every
/// `count` frames.
pub proof fn lemma_print_then_ticks(state: State, buffer: Vec<u8>, count: usize, ticks: nat)
    requires
        state.wf(),
        state.scroll.len == 0,
        count > 0,
        state.print_refusal(buffer@.len(), count as nat) is None,
    ensures
        state.print_effects(buffer, count).frame == Some(frame_for(buffer@[0], state.enabled)),
        state.print_effects(buffer, count).alarm == Some(state.speed),
        state.printed(buffer, count).scroll.len == count,
        state.printed(buffer, count).scroll.position == 1,
        state.printed(buffer, count).after_ticks(ticks).tick_effects().frame == Some(
            frame_for(buffer@[around(1, ticks, count as nat)], state.enabled),
        ),
{
    let printed = state.printed(buffer, count);
    assert(printed.wf());
    lemma_ticks_render_cyclically(printed, ticks);
    let now = printed.scroll.cursor() as int;
    let n = count as int;
    vstd::arithmetic::div_mod::lemma_mod_bound(now + ticks as int, n);
    if n == 1 {
        assert(now == 0);
        vstd::arithmetic::div_mod::lemma_mod_bound(1 + ticks as int, n);
    } else {
        assert(now == 1);
    }
}

/// What an accepted print leaves to scroll, whatever was on display. The
/// first `count` bytes of the text are the client's and the rest is as
/// before; the text is as long as the longer of the two. With no text at
/// all, ticks render nothing and stop the timer. Otherwise the tick that
/// follows `ticks` earlier ones renders the byte `ticks` places after the
/// cursor, counted cyclically, and the cursor is back at the first byte
/// once the current round is over.
pub proof fn lemma_print_scrolls_cyclically(
    state: State,
    buffer: Vec<u8>,
    count: usize,
    ticks: nat,
)
    requires
        state.wf(),
        state.print_refusal(buffer@.len(), count as nat) is None,
    ensures
        ({
            let printed = state.printed(buffer, count);
            let len = printed.scroll.len;
            let index = around(printed.scroll.cursor(), ticks, len);
            &&& printed.wf()
            &&& len == if count > state.scroll.len {
                count as nat
            } else {
                state.scroll.len
            }
            &&& forall|i: int| 0 <= i < count ==> printed.scroll.text[i] == buffer@[i]
            &&& forall|i: int|
                count <= i < state.scroll.text.len() ==> printed.scroll.text[i]
                    == state.scroll.text[i]
            &&& len == 0 ==> printed.after_ticks(ticks).tick_effects() == EffectsView::nothing()
            &&& len > 0 ==> {
                &&& 0 <= index < len
                &&& printed.after_ticks(ticks).tick_effects() == (EffectsView {
                    frame: Some(frame_for(printed.scroll.text[index], state.enabled)),
                    alarm: Some(state.speed),
                    deferred: None,
                })
                &&& printed.after_ticks((len - printed.scroll.cursor()) as nat).scroll.cursor()
                    == 0
            }
        }),
{
    let printed = state.printed(buffer, count);
    assert(printed.wf());
    lemma_ticks_only_scroll(printed, ticks);
    if printed.scroll.len == 0 {
        lemma_empty_scroll_rests(printed.scroll, ticks);
    } else {
        lemma_ticks_render_cyclically(printed, ticks);
        vstd::arithmetic::div_mod::lemma_mod_bound(
            printed.scroll.cursor() as int + ticks as int,
            printed.scroll.len as int,
        );
        lemma_scroll_wraps(printed.scroll);
        lemma_ticks_only_scroll(
            printed,
            (printed.scroll.len - printed.scroll.cursor()) as nat,
        );
    }
}

/// An accepted print over text on display leaves the scroll where it is
/// and shows nothing by itself: the timer is running and goes on.
pub proof fn lemma_print_over_text(state: State, buffer: Vec<u8>, count: usize)
    requires
        state.wf(),
        state.scroll.len > 0,
        state.print_refusal(buffer@.len(), count as nat) is None,
    ensures
        state.print_effects(buffer, count) == (EffectsView {
            frame: None,
            alarm: None,
            deferred: state.handle,
        }),
        state.printed(buffer, count).scroll.position == state.scroll.position,
{
}

/// Clearing twice, with the first clear completed in between, leaves the
/// driver as clearing once does: at the start of an empty text, with the
/// same blank frame asked for.
pub proof fn lemma_clear_is_idempotent(state: State)
    requires
        state.idle(),
    ensures
        state.cleared().completed().busy() is None,
        state.cleared().completed().cleared() == state.cleared(),
        state.cleared().completed().command_effects(Some(blank_frame()))
            == state.command_effects(Some(blank_frame())),
        state.cleared().scroll.position == 0,
        state.cleared().scroll.len == 0,
{
}

/// While an operation is in flight every request is refused with `Busy`,
/// whatever its arguments; the delivery of the deferred call ends that.
pub proof fn lemma_busy_until_completed(state: State, available: nat, count: nat)
    requires
        !state.idle(),
    ensures
        state.busy() == Some(ErrorCode::Busy),
        state.print_refusal(available, count) == Some(ErrorCode::Busy),
        state.completed().busy() is None,
        state.ticked().busy() == Some(ErrorCode::Busy),
{
}

/// Every accepted request leaves an operation in flight, so that none is
/// accepted before its completion is delivered.
pub proof fn lemma_accepted_is_in_flight(state: State, buffer: Vec<u8>, count: usize, enabled: bool)
    ensures
        !state.printed(buffer, count).idle(),
        !state.cleared().idle(),
        !state.switched(enabled).idle(),
{
}

/// The buffer of an accepted print comes back exactly once: the
/// completion carries that buffer and the count committed, however many
/// timer ticks pass before it, and after it nothing is left to report.
pub proof fn lemma_print_returns_buffer_once(
    state: State,
    buffer: Vec<u8>,
    count: usize,
    ticks: nat,
)
    requires
        state.print_refusal(buffer@.len(), count as nat) is None,
    ensures
        state.printed(buffer, count).after_ticks(ticks).completion() == Some(
            Completion::WriteComplete { client: state.client, buffer, len: count },
        ),
        state.printed(buffer, count).after_ticks(ticks).completed().completion() is None,
        state.printed(buffer, count).after_ticks(ticks).completed().operation
            == Operation::Idle,
{
    lemma_ticks_only_scroll(state.printed(buffer, count), ticks);
}

/// While the display is disabled the scroll moves exactly as it does
/// enabled, and every frame rendered is blank. Once it is enabled again,
/// the next tick renders the glyph of the byte under the cursor, the same
/// byte that would have had its turn had the display never been disabled.
pub proof fn lemma_disabled_scrolls_blank(state: State, ticks: nat)
    requires
        state.wf(),
        !state.enabled,
    ensures
        state.after_ticks(ticks).scroll == (State { enabled: true, ..state }).after_ticks(
            ticks,
        ).scroll,
        match state.after_ticks(ticks).tick_effects().frame {
            Some(frame) => frame == blank_frame(),
            None => state.scroll.len == 0,
        },
        ({
            let resumed = state.after_ticks(ticks).completed().switched(true);
            let index = around(state.scroll.cursor(), ticks, state.scroll.len);
            &&& resumed.scroll == state.after_ticks(ticks).scroll
            &&& resumed.tick_effects().frame == (State { enabled: true, ..state }).after_ticks(
                ticks,
            ).tick_effects().frame
            &&& state.scroll.len > 0 ==> resumed.tick_effects().frame == Some(
                frame_of(picture_of(state.scroll.text[index] as char, true)),
            )
        }),
{
    lemma_ticks_only_scroll(state, ticks);
    lemma_ticks_only_scroll(State { enabled: true, ..state }, ticks);
    if state.scroll.len > 0 {
        lemma_scroll_cycles(state.scroll, ticks);
    } else {
        lemma_empty_scroll_rests(state.scroll, ticks);
    }
}

} // verus!
