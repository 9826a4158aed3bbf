use vstd::prelude::*;

use crate::console::{
    ask, at, awaits, awaits_text, color_named, end_after, initial_model, next, next_command,
    next_graph_delete, next_graph_draw, next_graph_index, next_graph_size, next_render,
    next_sound_delete, next_sound_play, next_system_exit, next_system_title, next_text_color,
    ActionView, Answer, Color, ConsoleModel, EventView, Fault, Menu, PlayType, Stage,
    KEY_INPUT_STRING_X, KEY_INPUT_STRING_Y,
};
use crate::text::{
    decimal_value, is_digit, is_white_space, parse_usize, trim, trim_end, trim_start, unsigned_digits,
};
use crate::handles::{is_loaded_handle, loaded_entries};
use crate::size::{
    measured_relation, picture_spec, size_relation, Picture, SizeReration, PICTURE_BOTTOM, PICTURE_LEFT,
    PICTURE_RIGHT, PICTURE_TOP, WINDOW_HEIGHT, WINDOW_WIDTH,
};

verus! {

/// A graphic whose size could be read is larger than a size when it exceeds it in
/// width or in height, equal when it fits and matches it in width or in height, and
/// smaller when it is strictly smaller in both; its relation is unknown exactly
/// when its size could not be read.
pub proof fn lemma_size_relation_total(gh_x: int, gh_y: int, size_x: int, size_y: int)
    ensures
        (size_relation(gh_x, gh_y, size_x, size_y) == SizeReration::Larger) <==> (gh_x > size_x
            || gh_y > size_y),
        (size_relation(gh_x, gh_y, size_x, size_y) == SizeReration::Equal) <==> (gh_x <= size_x
            && gh_y <= size_y && (gh_x == size_x || gh_y == size_y)),
        (size_relation(gh_x, gh_y, size_x, size_y) == SizeReration::Smaller) <==> (gh_x < size_x
            && gh_y < size_y),
        forall|size: Option<(i32, i32)>|
            (#[trigger] measured_relation(size, size_x, size_y) == SizeReration::Unknown) <==> size
                is None,
{
}

/// The selected graphic is stretched exactly when it is not smaller than the window,
/// into a box a third of the window's width and height; otherwise it is drawn at
/// its own size at the same corner.
pub proof fn lemma_picture_stretched_unless_smaller(kind: SizeReration, handle: i32)
    ensures
        (picture_spec(kind, handle) is Stretched) <==> kind != SizeReration::Smaller,
        (picture_spec(kind, handle) is Plain) <==> kind == SizeReration::Smaller,
        PICTURE_RIGHT == PICTURE_LEFT + WINDOW_WIDTH / 3,
        PICTURE_BOTTOM == PICTURE_TOP + WINDOW_HEIGHT / 3,
{
}

/// The listing of loaded graphics holds exactly the slots whose handle is loaded,
/// each with its handle, in increasing slot order.
pub proof fn lemma_loaded_entries_exact(s: Seq<i32>)
    requires
        s.len() <= usize::MAX,
    ensures
        forall|k: int|
            0 <= k < loaded_entries(s).len() ==> {
                let (i, h) = #[trigger] loaded_entries(s)[k];
                &&& i < s.len()
                &&& s[i as int] == h
                &&& is_loaded_handle(h)
            },
        forall|k: int, l: int|
            0 <= k < l < loaded_entries(s).len() ==> (#[trigger] loaded_entries(s)[k]).0 < (
            #[trigger] loaded_entries(s)[l]).0,
        forall|i: int|
            0 <= i < s.len() && is_loaded_handle(#[trigger] s[i]) ==> loaded_entries(s).contains(
                (i as usize, s[i]),
            ),
    decreases s.len(),
{
    if s.len() > 0 {
        let p = s.drop_last();
        lemma_loaded_entries_exact(p);
        let q = loaded_entries(p);
        let e = loaded_entries(s);
        let last = ((s.len() - 1) as usize, s.last());
        assert(e == q || (is_loaded_handle(s.last()) && e == q.push(last)));
        assert forall|k: int| 0 <= k < e.len() implies {
            let (i, h) = #[trigger] e[k];
            &&& i < s.len()
            &&& s[i as int] == h
            &&& is_loaded_handle(h)
        } by {
            if k < q.len() {
                assert(e[k] == q[k]);
                let (i, h) = q[k];
                assert(i < p.len());
                assert(p[i as int] == s[i as int]);
            } else {
                assert(e[k] == last);
            }
        }
        assert forall|k: int, l: int| 0 <= k < l < e.len() implies (#[trigger] e[k]).0 < (
        #[trigger] e[l]).0 by {
            assert(e[k] == q[k]);
            let (i, h) = q[k];
            assert(i < p.len());
            if l < q.len() {
                assert(e[l] == q[l]);
            } else {
                assert(e[l] == last);
            }
        }
        assert forall|i: int| 0 <= i < s.len() && is_loaded_handle(#[trigger] s[i]) implies e.contains(
            (i as usize, s[i]),
        ) by {
            if i < s.len() - 1 {
                assert(p[i] == s[i]);
                assert(q.contains((i as usize, p[i])));
                let k = choose|k: int| 0 <= k < q.len() && q[k] == (i as usize, p[i]);
                assert(e[k] == q[k]);
            } else {
                assert(e[e.len() - 1] == last);
            }
        }
    }
}

/// After the program has ended or stopped on a fault, no event changes anything.
pub proof fn lemma_terminal_stages_absorb(s: ConsoleModel, e: EventView)
    requires
        s.stage == Stage::Finished || s.stage == Stage::Halted,
    ensures
        next(s, e) == (s, ActionView::Ignored),
{
}

/// An event of another kind than the awaited one changes nothing.
pub proof fn lemma_unawaited_event_ignored(s: ConsoleModel, e: EventView)
    requires
        !awaits(s.stage, e),
    ensures
        next(s, e) == (s, ActionView::Ignored),
{
}

/// A console starts with as many empty slots as configured, waiting for a frame.
pub proof fn lemma_initial_slots_empty(n: usize)
    ensures
        initial_model(n).handles.len() == n,
        forall|i: int| 0 <= i < n ==> #[trigger] initial_model(n).handles[i] == 0,
        loaded_entries(initial_model(n).handles) == Seq::<(usize, i32)>::empty(),
        initial_model(n).stage == Stage::Idle,
{
    let s = initial_model(n).handles;
    assert(s.len() <= usize::MAX);
    lemma_loaded_entries_exact(s);
    if loaded_entries(s).len() > 0 {
        let (i, h) = loaded_entries(s)[0];
        assert(s[i as int] == h);
    }
    assert(loaded_entries(s) =~= Seq::<(usize, i32)>::empty());
}

/// Every state has at least as many graphic slots as were configured.
pub open spec fn slots_cover_configuration(s: ConsoleModel) -> bool {
    s.handles.len() >= s.load_num
}

/// The configured number of slots never changes and the slots never shrink: only
/// the handle of a `graph load` adds one, one at a time.
pub proof fn lemma_slots_only_grow_by_load(s: ConsoleModel, e: EventView)
    ensures
        next(s, e).0.load_num == s.load_num,
        next(s, e).0.handles.len() == s.handles.len() || (next(s, e).0.handles.len()
            == s.handles.len() + 1 && s.stage == Stage::GraphLoad && e is GraphLoaded),
        slots_cover_configuration(s) ==> slots_cover_configuration(next(s, e).0),
{
}

/// The handle of a loaded graphic goes into the chosen slot; the slots before it
/// keep their handles and those from it on move up by one.
pub proof fn lemma_load_fills_chosen_slot(s: ConsoleModel, h: i32)
    requires
        s.stage == Stage::GraphLoad,
        s.index <= s.handles.len(),
    ensures
        next(s, EventView::GraphLoaded(h)).0.handles.len() == s.handles.len() + 1,
        next(s, EventView::GraphLoaded(h)).0.handles[s.index as int] == h,
        forall|i: int|
            0 <= i < s.index ==> #[trigger] next(s, EventView::GraphLoaded(h)).0.handles[i]
                == s.handles[i],
        forall|i: int|
            s.index <= i < s.handles.len() ==> next(s, EventView::GraphLoaded(h)).0.handles[i
                + 1] == #[trigger] s.handles[i],
{
}

/// Releasing a graphic marks exactly its slot as released (`-1`) and stops drawing.
pub proof fn lemma_delete_releases_one_slot(s: ConsoleModel, e: EventView)
    requires
        next(s, e).1 is DeleteGraph,
    ensures
        exists|n: int|
            0 <= n < s.handles.len() && next(s, e).1 == ActionView::DeleteGraph(s.handles[n])
                && next(s, e).0.handles == s.handles.update(n, -1i32),
        !next(s, e).0.draw_graph,
{
    match e {
        EventView::Typed(t) => {
            let n = parse_usize(t)->0;
            assert(0 <= n < s.handles.len() && next(s, e).1 == ActionView::DeleteGraph(
                s.handles[n as int],
            ) && next(s, e).0.handles == s.handles.update(n as int, -1i32));
        },
        _ => {},
    }
}

/// The program ends only after the user confirmed it, and then releases the
/// graphic of every slot.
pub proof fn lemma_quit_releases_every_handle(s: ConsoleModel, e: EventView)
    requires
        next(s, e).1 is Quit,
    ensures
        next(s, e).1 == ActionView::Quit(s.handles),
        s.end,
        next(s, e).0.stage == Stage::Finished,
{
}

/// Once the user confirmed the end, the next frame ends the program: at once, or
/// right after the command entered with the colon key, whatever it is.
pub proof fn lemma_confirmed_end_quits(s: ConsoleModel, colon: bool, t: Seq<char>)
    requires
        s.stage == Stage::Idle,
        s.end,
    ensures
        !colon ==> next(s, EventView::Frame { colon }) == (
            at(s, Stage::Finished),
            ActionView::Quit(s.handles),
        ),
        colon ==> next(s, EventView::Frame { colon }).1 == ask(true, false),
        colon ==> next(next(s, EventView::Frame { colon }).0, EventView::Typed(t)).1
            == ActionView::Quit(s.handles),
{
}

/// The answer to the exit question sets the end flag on `Yes`, clears it on `No`
/// and leaves it on anything else.
pub proof fn lemma_exit_answer_sets_end(s: ConsoleModel, a: Answer)
    requires
        s.stage == Stage::ExitAnswer,
    ensures
        next(s, EventView::Answered(a)).0.end == end_after(a, s.end),
        a == Answer::Yes ==> next(s, EventView::Answered(a)).0.end,
        a == Answer::No ==> !next(s, EventView::Answered(a)).0.end,
{
}

/// The entered texts only grow, by the text entered after `string set`.
pub proof fn lemma_texts_grow_only_by_entry(s: ConsoleModel, e: EventView)
    ensures
        next(s, e).0.texts == s.texts || (s.stage == Stage::TextEntry && e is Typed
            && next(s, e).0.texts == s.texts.push(e->Typed_0)),
{
}

/// The text last entered is the one that the following checks read; no other
/// event changes it.
pub proof fn lemma_entered_text_kept(s: ConsoleModel, e: EventView)
    ensures
        (e is Typed && awaits_text(s.stage)) ==> next(s, e).0.input == e->Typed_0,
        !(e is Typed) ==> next(s, e).0.input == s.input,
{
}

/// A stop leaves the program halted.
pub proof fn lemma_stop_halts(s: ConsoleModel, e: EventView)
    requires
        next(s, e).1 is Stop,
    ensures
        next(s, e).0.stage == Stage::Halted,
{
}

/// An entry that is not a number stops the program only where a slot number was
/// asked for.
pub proof fn lemma_not_a_number_only_for_slots(s: ConsoleModel, e: EventView)
    requires
        next(s, e).1 == ActionView::Stop(Fault::NotANumber),
    ensures
        e is Typed,
        s.stage == Stage::GraphLoadIndex || s.stage == Stage::GraphSizeIndex || s.stage
            == Stage::GraphDrawIndex || s.stage == Stage::GraphDeleteIndex,
{
}

/// A graphic is drawn from `graph draw` on, until `graph del`.
pub proof fn lemma_drawing_switched_by_draw_and_del(s: ConsoleModel, e: EventView)
    ensures
        next(s, e).0.draw_graph && !s.draw_graph ==> s.stage == Stage::GraphDrawIndex,
        !next(s, e).0.draw_graph && s.draw_graph ==> s.stage == Stage::GraphDeleteIndex,
{
}

/// Whether, in `stage`, the console waits for the kind of event that answers action
/// `a`: an entered text for `Ask`, the answer for `ConfirmExit`, a dialog's result
/// for a file choice, a handle for a load, a size reading for `MeasureGraph`, the
/// next frame for `Render`, and `Done` for an action that needs no answer.
pub open spec fn answer_awaited(a: ActionView, stage: Stage) -> bool {
    match a {
        ActionView::Ask { .. } => forall|x: Seq<char>| #[trigger]
            awaits(stage, EventView::Typed(x)),
        ActionView::ConfirmExit => forall|y: Answer| #[trigger]
            awaits(stage, EventView::Answered(y)),
        ActionView::PickImageFile | ActionView::PickSoundFile => forall|p: Option<Seq<char>>|
            #[trigger] awaits(stage, EventView::Picked(p)),
        ActionView::LoadGraph(_) => forall|h: i32| #[trigger]
            awaits(stage, EventView::GraphLoaded(h)),
        ActionView::LoadSound(_) => forall|h: i32| #[trigger]
            awaits(stage, EventView::SoundLoaded(h)),
        ActionView::MeasureGraph(_) => forall|z: Option<(i32, i32)>| #[trigger]
            awaits(stage, EventView::Measured { size: z }),
        ActionView::Render(_) => forall|c: bool| #[trigger]
            awaits(stage, EventView::Frame { colon: c }),
        ActionView::Quit(_) => stage == Stage::Finished,
        ActionView::Stop(_) => stage == Stage::Halted,
        ActionView::Ignored => true,
        _ => awaits(stage, EventView::Done),
    }
}

proof fn lemma_answered_render(s: ConsoleModel)
    ensures
        answer_awaited(next_render(s).1, next_render(s).0.stage),
{
}

proof fn lemma_answered_sound_delete(s: ConsoleModel)
    ensures
        answer_awaited(next_sound_delete(s).1, next_sound_delete(s).0.stage),
{
    lemma_answered_render(s);
}

proof fn lemma_answered_sound_play(s: ConsoleModel)
    ensures
        answer_awaited(next_sound_play(s).1, next_sound_play(s).0.stage),
{
    lemma_answered_sound_delete(s);
}

proof fn lemma_answered_graph_delete(s: ConsoleModel)
    ensures
        answer_awaited(next_graph_delete(s).1, next_graph_delete(s).0.stage),
{
    lemma_answered_render(s);
}

proof fn lemma_answered_graph_draw(s: ConsoleModel)
    ensures
        answer_awaited(next_graph_draw(s).1, next_graph_draw(s).0.stage),
{
    lemma_answered_graph_delete(s);
}

proof fn lemma_answered_graph_index(s: ConsoleModel)
    ensures
        answer_awaited(next_graph_index(s).1, next_graph_index(s).0.stage),
{
    lemma_answered_graph_draw(s);
}

proof fn lemma_answered_graph_size(s: ConsoleModel)
    ensures
        answer_awaited(next_graph_size(s).1, next_graph_size(s).0.stage),
{
    lemma_answered_graph_index(s);
}

proof fn lemma_answered_text_color(s: ConsoleModel)
    ensures
        answer_awaited(next_text_color(s).1, next_text_color(s).0.stage),
{
    lemma_answered_render(s);
}

proof fn lemma_answered_system_title(s: ConsoleModel)
    ensures
        answer_awaited(next_system_title(s).1, next_system_title(s).0.stage),
{
    lemma_answered_render(s);
}

proof fn lemma_answered_system_exit(s: ConsoleModel)
    ensures
        answer_awaited(next_system_exit(s).1, next_system_exit(s).0.stage),
{
    lemma_answered_system_title(s);
}

proof fn lemma_answered_command(s: ConsoleModel)
    ensures
        answer_awaited(next_command(s).1, next_command(s).0.stage),
{
    lemma_answered_render(s);
}

/// Every action that the console names is answered by an event that it then waits
/// for; so a driver that answers each action with an event of that kind is never
/// ignored, and a frame always ends waiting for the next frame.
pub proof fn lemma_actions_answered(s: ConsoleModel, e: EventView)
    ensures
        answer_awaited(next(s, e).1, next(s, e).0.stage),
        next(s, e).1 is Ignored ==> next(s, e).0 == s,
{
    if awaits(s.stage, e) {
        match e {
            EventView::Frame { colon } => {
                lemma_answered_command(s);
            },
            EventView::Typed(t) => {
                let s1 = ConsoleModel { input: t, ..s };
                lemma_answered_command(s1);
                lemma_answered_system_exit(s1);
                lemma_answered_render(s1);
                lemma_answered_text_color(s1);
                lemma_answered_text_color(ConsoleModel { texts: s.texts.push(t), ..s1 });
                lemma_answered_render(ConsoleModel { color: color_named(t, s.color), ..s1 });
                lemma_answered_graph_size(s1);
                lemma_answered_sound_play(s1);
                lemma_answered_sound_delete(s1);
                if let Some(n) = parse_usize(t) {
                    lemma_answered_graph_delete(
                        ConsoleModel { draw_index: n, draw_graph: true, ..s1 },
                    );
                }
            },
            EventView::GraphLoaded(h) => {
                if s.index <= s.handles.len() {
                    lemma_answered_graph_size(
                        ConsoleModel { handles: s.handles.insert(s.index as int, h), ..s },
                    );
                }
            },
            EventView::SoundLoaded(h) => {
                lemma_answered_sound_play(ConsoleModel { sound: h, ..s });
            },
            EventView::Answered(a) => {
                lemma_answered_system_title(ConsoleModel { end: end_after(a, s.end), ..s });
            },
            EventView::Done => {
                lemma_answered_system_exit(s);
                lemma_answered_graph_size(s);
                lemma_answered_graph_index(s);
                lemma_answered_graph_draw(s);
                lemma_answered_sound_play(s);
                lemma_answered_sound_delete(s);
                lemma_answered_render(s);
            },
            _ => {},
        }
    }
}

/// A graphic whose size was read is compared with the size given by the arguments:
/// larger when it is wider or taller than `size_x` by `size_y`, equal when it fits
/// and matches one of them, smaller when it is narrower and lower; it is unknown
/// exactly when the size could not be read.
pub proof fn lemma_relation_against_given_size(gh_x: i32, gh_y: i32, size_x: int, size_y: int)
    ensures
        (measured_relation(Some((gh_x, gh_y)), size_x, size_y) == SizeReration::Larger) <==> (
        gh_x > size_x || gh_y > size_y),
        (measured_relation(Some((gh_x, gh_y)), size_x, size_y) == SizeReration::Equal) <==> (
        gh_x <= size_x && gh_y <= size_y && (gh_x == size_x || gh_y == size_y)),
        (measured_relation(Some((gh_x, gh_y)), size_x, size_y) == SizeReration::Smaller) <==> (
        gh_x < size_x && gh_y < size_y),
        measured_relation(None, size_x, size_y) == SizeReration::Unknown,
{
}

/// A number does not spell a command word.
proof fn lemma_number_is_no_word(t: Seq<char>)
    requires
        parse_usize(t) is Some,
    ensures
        t != "del"@,
{
    reveal_strlit("del");
    if t == "del"@ {
        assert(unsigned_digits(t) == t);
        assert(!crate::text::is_digit(t[0]));
    }
}

/// `string set`: the entered text is appended to the texts, every time.
pub proof fn lemma_text_entry_appends(s: ConsoleModel, t: Seq<char>)
    requires
        s.stage == Stage::TextEntry,
    ensures
        next(s, EventView::Typed(t)).0.texts == s.texts.push(t),
        next(s, EventView::Typed(t)).0.texts.len() == s.texts.len() + 1,
        next(s, EventView::Typed(t)).0.texts.last() == t,
{
}

/// `graph draw n`: slot `n` becomes the drawn one, whatever was drawn before, and
/// the frame measures its graphic (or stops where there is no slot `n`).
pub proof fn lemma_draw_selects_slot(s: ConsoleModel, t: Seq<char>, n: usize)
    requires
        s.stage == Stage::GraphDrawIndex,
        parse_usize(t) == Some(n),
    ensures
        next(s, EventView::Typed(t)).0.draw_index == n,
        next(s, EventView::Typed(t)).0.draw_graph,
        n < s.handles.len() ==> next(s, EventView::Typed(t)).1 == ActionView::MeasureGraph(
            s.handles[n as int],
        ),
        n >= s.handles.len() ==> next(s, EventView::Typed(t)).1 == ActionView::Stop(
            Fault::IndexOutOfRange,
        ),
{
    lemma_number_is_no_word(t);
}

/// `graph size n`: the data of slot `n` is shown for every existing slot, and only a
/// slot beyond the slots, or an entry that is no number, stops the program.
pub proof fn lemma_size_shows_chosen_slot(s: ConsoleModel, t: Seq<char>)
    requires
        s.stage == Stage::GraphSizeIndex,
    ensures
        match parse_usize(trim(t)) {
            Some(n) => {
                &&& n < s.handles.len() ==> next(s, EventView::Typed(t)).1
                    == ActionView::ShowGraphData(s.handles[n as int])
                &&& n >= s.handles.len() ==> next(s, EventView::Typed(t)).1 == ActionView::Stop(
                    Fault::IndexOutOfRange,
                )
            },
            None => next(s, EventView::Typed(t)).1 == ActionView::Stop(Fault::NotANumber),
        },
        next(s, EventView::Typed(t)).0.handles == s.handles,
{
}

/// `graph del n`: exactly slot `n` is released and drawing stops; a slot beyond the
/// slots or an entry that is no number stops the program.
pub proof fn lemma_delete_chosen_slot(s: ConsoleModel, t: Seq<char>)
    requires
        s.stage == Stage::GraphDeleteIndex,
    ensures
        match parse_usize(t) {
            Some(n) => if n < s.handles.len() {
                &&& next(s, EventView::Typed(t)).1 == ActionView::DeleteGraph(s.handles[n as int])
                &&& next(s, EventView::Typed(t)).0.handles == s.handles.update(n as int, -1i32)
                &&& !next(s, EventView::Typed(t)).0.draw_graph
            } else {
                next(s, EventView::Typed(t)).1 == ActionView::Stop(Fault::IndexOutOfRange)
            },
            None => next(s, EventView::Typed(t)).1 == ActionView::Stop(Fault::NotANumber),
        },
{
}

/// `graph load n`: slot `n` is remembered for the graphic to load and an image file
/// is asked for; an entry that is no number stops the program.
pub proof fn lemma_load_index_chosen(s: ConsoleModel, t: Seq<char>)
    requires
        s.stage == Stage::GraphLoadIndex,
    ensures
        match parse_usize(t) {
            Some(n) => next(s, EventView::Typed(t)).0.index == n && next(
                s,
                EventView::Typed(t),
            ).1 == ActionView::PickImageFile,
            None => next(s, EventView::Typed(t)).1 == ActionView::Stop(Fault::NotANumber),
        },
{
}

/// A loaded graphic's failure handle is reported.
pub proof fn lemma_graph_load_failure_reported(s: ConsoleModel)
    requires
        s.stage == Stage::GraphLoad,
        s.index <= s.handles.len(),
    ensures
        next(s, EventView::GraphLoaded(-1i32)).1 == ActionView::ShowGraphLoadFailure(-1i32),
{
}

/// `sound load`: the handle of the sound loaded last is the one played and released
/// from then on, whatever sound was loaded before; a failed load is reported.
pub proof fn lemma_sound_load_keeps_handle(s: ConsoleModel, h: i32)
    requires
        s.stage == Stage::SoundLoad,
    ensures
        next(s, EventView::SoundLoaded(h)).0.sound == h,
        h == -1 ==> next(s, EventView::SoundLoaded(h)).1 == ActionView::ShowSoundLoadFailure(h),
{
}

/// `sound play back|normal|loop` plays the loaded sound in that way.
pub proof fn lemma_sound_played_as_asked(s: ConsoleModel)
    requires
        s.stage == Stage::SoundPlay,
    ensures
        next(s, EventView::Typed("back"@)).1 == ActionView::PlaySound(s.sound, PlayType::Back),
        next(s, EventView::Typed("normal"@)).1 == ActionView::PlaySound(s.sound, PlayType::Normal),
        next(s, EventView::Typed("loop"@)).1 == ActionView::PlaySound(s.sound, PlayType::Loop),
{
    reveal_strlit("back");
    reveal_strlit("normal");
    reveal_strlit("loop");
}

/// A file chosen in a dialog is the one that is measured or loaded; no choice is
/// reported.
pub proof fn lemma_chosen_file_used(s: ConsoleModel, path: Seq<char>)
    ensures
        s.stage == Stage::FilePick ==> next(s, EventView::Picked(Some(path))).1
            == ActionView::ShowFileSize(path),
        s.stage == Stage::GraphPick ==> next(s, EventView::Picked(Some(path))).1
            == ActionView::LoadGraph(path),
        s.stage == Stage::SoundPick ==> next(s, EventView::Picked(Some(path))).1
            == ActionView::LoadSound(path),
        (s.stage == Stage::FilePick || s.stage == Stage::GraphPick || s.stage == Stage::SoundPick)
            ==> next(s, EventView::Picked(None)).1 == ActionView::ShowNoFileSelected,
{
}

/// `@sys title set`: the entered text becomes the window's title.
pub proof fn lemma_title_set(s: ConsoleModel, t: Seq<char>)
    requires
        s.stage == Stage::SystemTitleText,
    ensures
        next(s, EventView::Typed(t)).1 == ActionView::SetTitle(t),
{
}

/// `string color`: red, green and blue select their colors; any other text keeps
/// the color.
pub proof fn lemma_color_selected(s: ConsoleModel, t: Seq<char>)
    requires
        s.stage == Stage::TextColor,
    ensures
        t == "red"@ ==> next(s, EventView::Typed(t)).0.color == (Color { r: 255, g: 0, b: 0 }),
        t == "green"@ ==> next(s, EventView::Typed(t)).0.color == (Color { r: 0, g: 255, b: 0 }),
        t == "blue"@ ==> next(s, EventView::Typed(t)).0.color == (Color { r: 0, g: 0, b: 255 }),
        t != "red"@ && t != "green"@ && t != "blue"@ ==> next(s, EventView::Typed(t)).0.color
            == s.color,
{
    reveal_strlit("red");
    reveal_strlit("green");
    reveal_strlit("blue");
}

/// The drawn slot's graphic is drawn at its own size when it is narrower and lower
/// than the window, and stretched into a third of the window otherwise (its size
/// unknown included).
pub proof fn lemma_measured_graphic_drawn(s: ConsoleModel, size: Option<(i32, i32)>)
    requires
        s.stage == Stage::Measure,
        s.draw_index < s.handles.len(),
    ensures
        next(s, (EventView::Measured { size })).0.stage == Stage::Idle,
        (match size {
            Some((w, h)) => w < WINDOW_WIDTH && h < WINDOW_HEIGHT,
            None => false,
        }) ==> next(s, (EventView::Measured { size })).1 == ActionView::Render(
            (Picture::Plain { handle: s.handles[s.draw_index as int], x: PICTURE_LEFT, y: PICTURE_TOP }),
        ),
        (!match size {
            Some((w, h)) => w < WINDOW_WIDTH && h < WINDOW_HEIGHT,
            None => false,
        }) ==> next(s, (EventView::Measured { size })).1 == ActionView::Render(
            (Picture::Stretched {
                handle: s.handles[s.draw_index as int],
                left: PICTURE_LEFT,
                top: PICTURE_TOP,
                right: PICTURE_RIGHT,
                bottom: PICTURE_BOTTOM,
            }),
        ),
{
}

/// With the colon key a frame first asks for a command in the input field.
pub proof fn lemma_colon_asks_for_command(s: ConsoleModel)
    requires
        s.stage == Stage::Idle,
    ensures
        next(s, (EventView::Frame { colon: true })).0.stage == Stage::Command,
        next(s, (EventView::Frame { colon: true })).1 == (ActionView::Ask {
            x: KEY_INPUT_STRING_X,
            y: KEY_INPUT_STRING_Y,
            cancel_valid: true,
            japanese: false,
        }),
{
}

/// Each command word opens its command and asks for its next word; no other word
/// does anything but draw the frame.
pub proof fn lemma_command_words(s: ConsoleModel, t: Seq<char>)
    requires
        s.stage == Stage::Command,
        !s.end,
    ensures
        t == "@sys"@ ==> next(s, EventView::Typed(t)).0.stage == Stage::Word(Menu::System),
        t == "string"@ ==> next(s, EventView::Typed(t)).0.stage == Stage::Word(Menu::Text),
        t == "file"@ ==> next(s, EventView::Typed(t)).0.stage == Stage::Word(Menu::File),
        t == "divgraph"@ ==> next(s, EventView::Typed(t)).0.stage == Stage::Word(Menu::DivGraph),
        t == "graph"@ ==> next(s, EventView::Typed(t)).0.stage == Stage::Word(Menu::Graph),
        t == "sound"@ ==> next(s, EventView::Typed(t)).0.stage == Stage::Word(Menu::Sound),
        t != "@sys"@ && t != "string"@ && t != "file"@ && t != "divgraph"@ && t != "graph"@ && t
            != "sound"@ && !s.draw_graph ==> next(s, EventView::Typed(t)) == (
            at(ConsoleModel { input: t, ..s }, Stage::Idle),
            ActionView::Render(Picture::Nothing),
        ),
{
    reveal_strlit("@sys");
    reveal_strlit("string");
    reveal_strlit("file");
    reveal_strlit("divgraph");
    reveal_strlit("graph");
    reveal_strlit("sound");
}

/// `@sys`: `os` asks for a word and `os data` shows the system figures; `exit`
/// (after `@sys` or after `@sys os`) asks whether to end; `title` asks for a word
/// and `title set` asks, in Japanese input, for the new title.
pub proof fn lemma_system_words(s: ConsoleModel)
    ensures
        s.stage == Stage::Word(Menu::System) ==> next(s, EventView::Typed("os"@)) == (
            ConsoleModel { input: "os"@, stage: Stage::SystemOs, ..s },
            (ActionView::Ask { x: KEY_INPUT_STRING_X, y: KEY_INPUT_STRING_Y, cancel_valid: false, japanese: false }),
        ),
        s.stage == Stage::SystemOs ==> next(s, EventView::Typed("data"@)).1
            == ActionView::ShowSystemInfo,
        (s.stage == Stage::Word(Menu::System) || s.stage == Stage::SystemOs) ==> next(
            s,
            EventView::Typed("exit"@),
        ) == (ConsoleModel { input: "exit"@, stage: Stage::ExitAnswer, ..s }, ActionView::ConfirmExit),
        s.stage == Stage::Word(Menu::System) ==> next(s, EventView::Typed("title"@)).1 == (ActionView::Ask { x: KEY_INPUT_STRING_X, y: KEY_INPUT_STRING_Y, cancel_valid: false, japanese: false }),
        s.stage == Stage::SystemTitle ==> next(s, EventView::Typed("set"@)).1 == (ActionView::Ask { x: KEY_INPUT_STRING_X, y: KEY_INPUT_STRING_Y, cancel_valid: false, japanese: true }),
{
    reveal_strlit("os");
    reveal_strlit("data");
    reveal_strlit("exit");
    reveal_strlit("title");
    reveal_strlit("set");
}

/// `string`: `set` asks, in Japanese input, for a text; `color` asks for a color.
pub proof fn lemma_string_words(s: ConsoleModel)
    requires
        s.stage == Stage::Word(Menu::Text),
    ensures
        next(s, EventView::Typed("set"@)) == (
            ConsoleModel { input: "set"@, stage: Stage::TextEntry, ..s },
            (ActionView::Ask { x: KEY_INPUT_STRING_X, y: KEY_INPUT_STRING_Y, cancel_valid: false, japanese: true }),
        ),
        next(s, EventView::Typed("color"@)) == (
            ConsoleModel { input: "color"@, stage: Stage::TextColor, ..s },
            (ActionView::Ask { x: KEY_INPUT_STRING_X, y: KEY_INPUT_STRING_Y, cancel_valid: false, japanese: false }),
        ),
{
    reveal_strlit("set");
    reveal_strlit("color");
}

/// `file size` asks for an image file.
pub proof fn lemma_file_words(s: ConsoleModel)
    requires
        s.stage == Stage::Word(Menu::File),
    ensures
        next(s, EventView::Typed("size"@)) == (
            ConsoleModel { input: "size"@, stage: Stage::FilePick, ..s },
            ActionView::PickImageFile,
        ),
{
}

/// `graph`: `load`, `size`, `draw` and `del` ask for a slot; `index` lists the
/// loaded slots.
pub proof fn lemma_graph_words(s: ConsoleModel)
    requires
        s.stage == Stage::Word(Menu::Graph),
    ensures
        next(s, EventView::Typed("load"@)) == (
            ConsoleModel { input: "load"@, stage: Stage::GraphLoadIndex, ..s },
            (ActionView::Ask { x: KEY_INPUT_STRING_X, y: KEY_INPUT_STRING_Y, cancel_valid: true, japanese: false }),
        ),
        next(s, EventView::Typed("size"@)) == (
            ConsoleModel { input: "size"@, stage: Stage::GraphSizeIndex, ..s },
            (ActionView::Ask { x: KEY_INPUT_STRING_X, y: KEY_INPUT_STRING_Y, cancel_valid: true, japanese: false }),
        ),
        next(s, EventView::Typed("index"@)).1 == ActionView::ShowHandles(loaded_entries(s.handles)),
        next(s, EventView::Typed("draw"@)) == (
            ConsoleModel { input: "draw"@, stage: Stage::GraphDrawIndex, ..s },
            (ActionView::Ask { x: KEY_INPUT_STRING_X, y: KEY_INPUT_STRING_Y, cancel_valid: true, japanese: false }),
        ),
        next(s, EventView::Typed("del"@)) == (
            ConsoleModel { input: "del"@, stage: Stage::GraphDeleteIndex, ..s },
            (ActionView::Ask { x: KEY_INPUT_STRING_X, y: KEY_INPUT_STRING_Y, cancel_valid: true, japanese: false }),
        ),
{
    reveal_strlit("load");
    reveal_strlit("size");
    reveal_strlit("index");
    reveal_strlit("draw");
    reveal_strlit("del");
}

/// `sound`: `load` asks for a sound file, `play` asks how to play, `del` releases
/// the loaded sound.
pub proof fn lemma_sound_words(s: ConsoleModel)
    requires
        s.stage == Stage::Word(Menu::Sound),
    ensures
        next(s, EventView::Typed("load"@)) == (
            ConsoleModel { input: "load"@, stage: Stage::SoundPick, ..s },
            ActionView::PickSoundFile,
        ),
        next(s, EventView::Typed("play"@)) == (
            ConsoleModel { input: "play"@, stage: Stage::SoundPlay, ..s },
            (ActionView::Ask { x: KEY_INPUT_STRING_X, y: KEY_INPUT_STRING_Y, cancel_valid: false, japanese: false }),
        ),
        next(s, EventView::Typed("del"@)).1 == ActionView::DeleteSound(s.sound),
{
    reveal_strlit("load");
    reveal_strlit("play");
    reveal_strlit("del");
}

/// A loaded graphic's slot beyond the slots stops the program.
pub proof fn lemma_load_beyond_slots_stops(s: ConsoleModel, h: i32)
    requires
        s.stage == Stage::GraphLoad,
        s.index > s.handles.len(),
    ensures
        next(s, EventView::GraphLoaded(h)).1 == ActionView::Stop(Fault::IndexOutOfRange),
{
}

/// A new console draws white texts, has none, is not ending and draws no graphic.
pub proof fn lemma_initial_console(n: usize)
    ensures
        initial_model(n).color == (Color { r: 255, g: 255, b: 255 }),
        initial_model(n).texts.len() == 0,
        !initial_model(n).end,
        !initial_model(n).draw_graph,
        initial_model(n).load_num == n,
        initial_model(n).input.len() == 0,
{
}

/// The value of digit `c`.
pub open spec fn digit_of(c: char) -> int {
    (c as u32) - ('0' as u32)
}

/// What parses as a `usize` is a non-empty string of decimal digits, with at most a
/// leading `+`; the empty text, a lone `+` and a leading `-` never parse.
pub proof fn lemma_parse_shape(s: Seq<char>)
    ensures
        parse_usize(s) is Some ==> s.len() > 0 && s != seq!['+'] && forall|i: int|
            0 <= i < s.len() ==> is_digit(#[trigger] s[i]) || (i == 0 && s[i] == '+'),
        parse_usize(Seq::<char>::empty()) is None,
        s.len() > 0 && s[0] == '-' ==> parse_usize(s) is None,
{
    if parse_usize(s) is Some {
        let d = unsigned_digits(s);
        assert forall|i: int| 0 <= i < s.len() implies is_digit(#[trigger] s[i]) || (i == 0
            && s[i] == '+') by {
            if s[0] == '+' && i > 0 {
                assert(s[i] == d[i - 1]);
            } else if s[0] != '+' {
                assert(s[i] == d[i]);
            }
        }
    }
    if s.len() > 0 && s[0] == '-' {
        assert(!is_digit(unsigned_digits(s)[0]));
    }
}

/// A single digit parses as its value.
pub proof fn lemma_parse_single_digit(c: char)
    requires
        is_digit(c),
    ensures
        parse_usize(seq![c]) == Some(digit_of(c) as usize),
{
    let d = seq![c];
    assert(unsigned_digits(d) == d);
    assert(d.drop_last() =~= Seq::<char>::empty());
    assert(decimal_value(Seq::<char>::empty()) == 0);
    assert(d.last() == c);
    assert(decimal_value(d) == decimal_value(d.drop_last()) * 10 + crate::text::digit_value(c));
    assert(decimal_value(d) == digit_of(c));
}

/// Appending a digit to a number multiplies it by ten and adds the digit, as long as
/// the result fits in a `usize`; beyond that the text no longer parses.
pub proof fn lemma_parse_appends_digit(s: Seq<char>, c: char, n: usize)
    requires
        parse_usize(s) == Some(n),
        is_digit(c),
    ensures
        n * 10 + digit_of(c) <= usize::MAX ==> parse_usize(s.push(c)) == Some(
            (n * 10 + digit_of(c)) as usize,
        ),
        n * 10 + digit_of(c) > usize::MAX ==> parse_usize(s.push(c)) is None,
{
    let d = unsigned_digits(s);
    let e = unsigned_digits(s.push(c));
    if s[0] == '+' {
        assert(e =~= d.push(c));
    } else {
        assert(e =~= d.push(c));
    }
    assert(e.drop_last() =~= d);
    assert(decimal_value(e) == decimal_value(d) * 10 + digit_of(c));
    assert forall|i: int| 0 <= i < e.len() implies is_digit(#[trigger] e[i]) by {
        if i < d.len() {
            assert(e[i] == d[i]);
        }
    }
}

/// A leading `+` does not change the value of a number.
pub proof fn lemma_parse_plus(d: Seq<char>)
    requires
        d.len() > 0,
        is_digit(d[0]),
    ensures
        parse_usize(seq!['+'] + d) == parse_usize(d),
{
    assert(unsigned_digits(seq!['+'] + d) =~= d);
    assert(unsigned_digits(d) == d);
}

proof fn lemma_trim_start_shape(s: Seq<char>) -> (k: int)
    ensures
        0 <= k <= s.len(),
        trim_start(s) == s.subrange(k, s.len() as int),
        forall|i: int| 0 <= i < k ==> is_white_space(#[trigger] s[i]),
        k < s.len() ==> !is_white_space(s[k]),
    decreases s.len(),
{
    if s.len() > 0 && is_white_space(s[0]) {
        let k1 = lemma_trim_start_shape(s.drop_first());
        assert(s.drop_first().subrange(k1, s.len() - 1) =~= s.subrange(k1 + 1, s.len() as int));
        assert forall|i: int| 0 <= i < k1 + 1 implies is_white_space(#[trigger] s[i]) by {
            if i > 0 {
                assert(s[i] == s.drop_first()[i - 1]);
            }
        }
        k1 + 1
    } else {
        assert(s.subrange(0, s.len() as int) =~= s);
        0
    }
}

proof fn lemma_trim_end_shape(s: Seq<char>) -> (k: int)
    ensures
        0 <= k <= s.len(),
        trim_end(s) == s.subrange(0, k),
        forall|i: int| k <= i < s.len() ==> is_white_space(#[trigger] s[i]),
        k > 0 ==> !is_white_space(s[k - 1]),
    decreases s.len(),
{
    if s.len() > 0 && is_white_space(s.last()) {
        let k1 = lemma_trim_end_shape(s.drop_last());
        assert(s.drop_last().subrange(0, k1) =~= s.subrange(0, k1));
        assert forall|i: int| k1 <= i < s.len() implies is_white_space(#[trigger] s[i]) by {
            if i < s.len() - 1 {
                assert(s[i] == s.drop_last()[i]);
            }
        }
        k1
    } else {
        assert(s.subrange(0, s.len() as int) =~= s);
        s.len() as int
    }
}

/// Trimming removes exactly the white space at both ends: the result is a stretch
/// of the text, everything before and after it is white space, and it neither
/// starts nor ends with white space.
pub proof fn lemma_trim_shape(s: Seq<char>)
    ensures
        exists|lo: int, hi: int|
            0 <= lo <= hi <= s.len() && trim(s) == s.subrange(lo, hi) && (forall|i: int|
                0 <= i < lo ==> is_white_space(#[trigger] s[i])) && (forall|i: int|
                hi <= i < s.len() ==> is_white_space(#[trigger] s[i])) && (lo < hi
                ==> !is_white_space(s[lo]) && !is_white_space(s[hi - 1])),
{
    let lo = lemma_trim_start_shape(s);
    let rest = s.subrange(lo, s.len() as int);
    let k = lemma_trim_end_shape(rest);
    let hi = lo + k;
    assert(rest.subrange(0, k) =~= s.subrange(lo, hi));
    assert forall|i: int| hi <= i < s.len() implies is_white_space(#[trigger] s[i]) by {
        assert(s[i] == rest[i - lo]);
    }
    if lo < hi {
        assert(s[hi - 1] == rest[k - 1]);
    }
    assert(0 <= lo <= hi <= s.len() && trim(s) == s.subrange(lo, hi) && (forall|i: int|
        0 <= i < lo ==> is_white_space(#[trigger] s[i])) && (forall|i: int|
        hi <= i < s.len() ==> is_white_space(#[trigger] s[i])) && (lo < hi
        ==> !is_white_space(s[lo]) && !is_white_space(s[hi - 1])));
}

} // verus!
