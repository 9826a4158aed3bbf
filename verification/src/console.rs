use vstd::prelude::*;

use crate::handles::{graph_handle_to_index, loaded_entries};
use crate::size::{
    graph_to_size, measured_relation, picture_for, picture_spec, Picture, SizeReration, WINDOW_HEIGHT,
    WINDOW_WIDTH,
};
use crate::text::{chars_of, parse_trimmed_usize_chars, parse_usize, parse_usize_chars, same_text, trim};

verus! {

/// Column of the command input field.
pub const KEY_INPUT_STRING_X: i32 = 45;

/// Row of the command input field: 20 pixels above the bottom of the window.
pub const KEY_INPUT_STRING_Y: i32 = 460;

/// Column at which the entered texts are drawn.
pub const TEXT_X: i32 = 0;

/// Row at which the entered texts are drawn.
pub const TEXT_Y: i32 = 80;

/// A drawing color.
#[derive(Clone, Copy, PartialEq, Eq, Structural, Debug)]
pub struct Color {
    pub r: u8,
    pub g: u8,
    pub b: u8,
}

/// How a loaded sound is played.
#[derive(Clone, Copy, PartialEq, Eq, Structural, Debug)]
pub enum PlayType {
    /// In the background.
    Back,
    /// To its end before the program goes on.
    Normal,
    /// Over and over.
    Loop,
}

/// The answer to the question whether to end the program.
#[derive(Clone, Copy, PartialEq, Eq, Structural, Debug)]
pub enum Answer {
    Yes,
    No,
    Other,
}

/// Why the console stopped for good.
#[derive(Clone, Copy, PartialEq, Eq, Structural, Debug)]
pub enum Fault {
    /// An entered index was not a number.
    NotANumber,
    /// An entered index lay beyond the graphic slots.
    IndexOutOfRange,
}

/// The commands that take further words.
#[derive(Clone, Copy, PartialEq, Eq, Structural, Debug)]
pub enum Menu {
    /// `@sys`
    System,
    /// `string`
    Text,
    /// `file`
    File,
    /// `divgraph`
    DivGraph,
    /// `graph`
    Graph,
    /// `sound`
    Sound,
}

/// Where the command script goes on once an outside action has been carried out.
#[derive(Clone, Copy, PartialEq, Eq, Structural, Debug)]
pub enum Point {
    /// `@sys`: the check for `exit`.
    SystemExit,
    /// `graph`: the check for `size`.
    GraphSize,
    /// `graph`: the check for `index`.
    GraphIndex,
    /// `graph`: the check for `draw`.
    GraphDraw,
    /// `sound`: the check for `play`.
    SoundPlay,
    /// `sound`: the check for `del`.
    SoundDelete,
    /// The end of the command: the frame is drawn.
    Render,
}

/// What the console waits for.
#[derive(Clone, Copy, PartialEq, Eq, Structural, Debug)]
pub enum Stage {
    /// The start of a frame.
    Idle,
    /// The command word.
    Command,
    /// The first word after a command.
    Word(Menu),
    /// The word after `@sys os`.
    SystemOs,
    /// The answer to the question whether to end the program.
    ExitAnswer,
    /// The word after `@sys ... title`.
    SystemTitle,
    /// The new window title.
    SystemTitleText,
    /// The text of `string set`.
    TextEntry,
    /// The color name of `string ... color`.
    TextColor,
    /// The file chosen for `file size`.
    FilePick,
    /// The slot of `graph load`.
    GraphLoadIndex,
    /// The image file chosen for `graph load`.
    GraphPick,
    /// The handle of the graphic just loaded.
    GraphLoad,
    /// The slot of `graph size`.
    GraphSizeIndex,
    /// The slot of `graph draw`.
    GraphDrawIndex,
    /// The slot of `graph del`.
    GraphDeleteIndex,
    /// The sound file chosen for `sound load`.
    SoundPick,
    /// The handle of the sound just loaded.
    SoundLoad,
    /// The way of `sound play`.
    SoundPlay,
    /// The size of the graphic to draw.
    Measure,
    /// The end of an action that needs no answer.
    Acked(Point),
    /// Nothing: the program has ended.
    Finished,
    /// Nothing: the program has stopped on a fault.
    Halted,
}

/// What the outside world reports to the console.
#[derive(Debug, PartialEq)]
pub enum Event {
    /// A new frame begins; `colon` tells whether the colon key is held down.
    Frame { colon: bool },
    /// The text entered in the input field.
    Typed(String),
    /// The path of the file chosen in a file dialog, if one was chosen.
    Picked(Option<String>),
    /// The handle that loading a graphic gave (`-1` on failure).
    GraphLoaded(i32),
    /// The handle that loading a sound gave (`-1` on failure).
    SoundLoaded(i32),
    /// The answer to the question whether to end the program.
    Answered(Answer),
    /// What reading the size of the graphic to draw gave: its width and height,
    /// or `None` where the size could not be read.
    Measured { size: Option<(i32, i32)> },
    /// An action that needs no answer has been carried out.
    Done,
}

/// What the console asks the outside world to do.
#[derive(Debug, PartialEq)]
pub enum Action {
    /// Let the user enter a text in the input field at `(x, y)`.
    Ask { x: i32, y: i32, cancel_valid: bool, japanese: bool },
    /// Ask the user whether to end the program.
    ConfirmExit,
    /// Print the CPU speed and the memory figures of the machine.
    ShowSystemInfo,
    /// Set the window's title.
    SetTitle(String),
    /// Let the user choose an image file.
    PickImageFile,
    /// Let the user choose a sound file.
    PickSoundFile,
    /// Print the size in bytes of the file at this path.
    ShowFileSize(String),
    /// Report that no file was chosen.
    ShowNoFileSelected,
    /// Load the graphic at this path.
    LoadGraph(String),
    /// Report that loading a graphic failed with this handle.
    ShowGraphLoadFailure(i32),
    /// Print the size data of the graphic with this handle.
    ShowGraphData(i32),
    /// Print these (slot, handle) pairs.
    ShowHandles(Vec<(usize, i32)>),
    /// Release the graphic with this handle.
    DeleteGraph(i32),
    /// Load the sound at this path.
    LoadSound(String),
    /// Report that loading a sound failed with this handle.
    ShowSoundLoadFailure(i32),
    /// Play the sound with this handle.
    PlaySound(i32, PlayType),
    /// Release the sound with this handle.
    DeleteSound(i32),
    /// Measure the graphic with this handle.
    MeasureGraph(i32),
    /// Draw the frame: the texts, in the current color, and this picture.
    Render(Picture),
    /// End the program, releasing the graphics with these handles.
    Quit(Vec<i32>),
    /// Stop the program on a fault.
    Stop(Fault),
    /// The event was not the one awaited; nothing happened.
    Ignored,
}

/// An event, with its texts as character sequences.
pub enum EventView {
    Frame { colon: bool },
    Typed(Seq<char>),
    Picked(Option<Seq<char>>),
    GraphLoaded(i32),
    SoundLoaded(i32),
    Answered(Answer),
    Measured { size: Option<(i32, i32)> },
    Done,
}

/// An action, with its texts and lists as sequences.
pub enum ActionView {
    Ask { x: i32, y: i32, cancel_valid: bool, japanese: bool },
    ConfirmExit,
    ShowSystemInfo,
    SetTitle(Seq<char>),
    PickImageFile,
    PickSoundFile,
    ShowFileSize(Seq<char>),
    ShowNoFileSelected,
    LoadGraph(Seq<char>),
    ShowGraphLoadFailure(i32),
    ShowGraphData(i32),
    ShowHandles(Seq<(usize, i32)>),
    DeleteGraph(i32),
    LoadSound(Seq<char>),
    ShowSoundLoadFailure(i32),
    PlaySound(i32, PlayType),
    DeleteSound(i32),
    MeasureGraph(i32),
    Render(Picture),
    Quit(Seq<i32>),
    Stop(Fault),
    Ignored,
}

impl View for Event {
    type V = EventView;

    open spec fn view(&self) -> EventView {
        match self {
            Event::Frame { colon } => EventView::Frame { colon: *colon },
            Event::Typed(t) => EventView::Typed(t@),
            Event::Picked(p) => EventView::Picked(
                match p {
                    Some(x) => Some(x@),
                    None => None,
                },
            ),
            Event::GraphLoaded(h) => EventView::GraphLoaded(*h),
            Event::SoundLoaded(h) => EventView::SoundLoaded(*h),
            Event::Answered(a) => EventView::Answered(*a),
            Event::Measured { size } => EventView::Measured { size: *size },
            Event::Done => EventView::Done,
        }
    }
}

impl View for Action {
    type V = ActionView;

    open spec fn view(&self) -> ActionView {
        match self {
            Action::Ask { x, y, cancel_valid, japanese } => ActionView::Ask {
                x: *x,
                y: *y,
                cancel_valid: *cancel_valid,
                japanese: *japanese,
            },
            Action::ConfirmExit => ActionView::ConfirmExit,
            Action::ShowSystemInfo => ActionView::ShowSystemInfo,
            Action::SetTitle(t) => ActionView::SetTitle(t@),
            Action::PickImageFile => ActionView::PickImageFile,
            Action::PickSoundFile => ActionView::PickSoundFile,
            Action::ShowFileSize(p) => ActionView::ShowFileSize(p@),
            Action::ShowNoFileSelected => ActionView::ShowNoFileSelected,
            Action::LoadGraph(p) => ActionView::LoadGraph(p@),
            Action::ShowGraphLoadFailure(h) => ActionView::ShowGraphLoadFailure(*h),
            Action::ShowGraphData(h) => ActionView::ShowGraphData(*h),
            Action::ShowHandles(v) => ActionView::ShowHandles(v@),
            Action::DeleteGraph(h) => ActionView::DeleteGraph(*h),
            Action::LoadSound(p) => ActionView::LoadSound(p@),
            Action::ShowSoundLoadFailure(h) => ActionView::ShowSoundLoadFailure(*h),
            Action::PlaySound(h, t) => ActionView::PlaySound(*h, *t),
            Action::DeleteSound(h) => ActionView::DeleteSound(*h),
            Action::MeasureGraph(h) => ActionView::MeasureGraph(*h),
            Action::Render(p) => ActionView::Render(*p),
            Action::Quit(v) => ActionView::Quit(v@),
            Action::Stop(f) => ActionView::Stop(*f),
            Action::Ignored => ActionView::Ignored,
        }
    }
}

/// The state of the console.
#[verifier::ext_equal]
pub struct ConsoleModel {
    /// The number of graphic slots that the configuration asked for.
    pub load_num: usize,
    /// The graphic handles by slot (`0`: empty, `-1`: failed or released).
    pub handles: Seq<i32>,
    /// The slot of the last `graph load`.
    pub index: usize,
    /// The slot of the graphic to draw.
    pub draw_index: usize,
    /// Whether a graphic is drawn.
    pub draw_graph: bool,
    /// The handle of the loaded sound.
    pub sound: i32,
    /// The texts entered with `string set`.
    pub texts: Seq<Seq<char>>,
    /// The color of the texts.
    pub color: Color,
    /// Whether the user confirmed that the program ends.
    pub end: bool,
    /// The text last entered in the input field.
    pub input: Seq<char>,
    /// What the console waits for.
    pub stage: Stage,
}

/// White, the color the texts start in.
pub open spec fn white() -> Color {
    Color { r: 255, g: 255, b: 255 }
}

/// The state of a console with `n` empty graphic slots.
pub open spec fn initial_model(n: usize) -> ConsoleModel {
    ConsoleModel {
        load_num: n,
        handles: Seq::new(n as nat, |i: int| 0i32),
        index: 0,
        draw_index: 0,
        draw_graph: false,
        sound: 0,
        texts: Seq::empty(),
        color: white(),
        end: false,
        input: Seq::empty(),
        stage: Stage::Idle,
    }
}

/// `s`, waiting for `stage`.
pub open spec fn at(s: ConsoleModel, stage: Stage) -> ConsoleModel {
    ConsoleModel { stage, ..s }
}

/// The request for a text in the command input field.
pub open spec fn ask(cancel_valid: bool, japanese: bool) -> ActionView {
    ActionView::Ask { x: KEY_INPUT_STRING_X, y: KEY_INPUT_STRING_Y, cancel_valid, japanese }
}

/// The color that the name `t` selects; any other text keeps `c`.
pub open spec fn color_named(t: Seq<char>, c: Color) -> Color {
    if t == "red"@ {
        Color { r: 255, g: 0, b: 0 }
    } else if t == "green"@ {
        Color { r: 0, g: 255, b: 0 }
    } else if t == "blue"@ {
        Color { r: 0, g: 0, b: 255 }
    } else {
        c
    }
}

/// The end of a command: the selected graphic is measured before the frame is
/// drawn, or the frame is drawn without one.
pub open spec fn next_render(s: ConsoleModel) -> (ConsoleModel, ActionView) {
    if s.draw_graph {
        if s.draw_index < s.handles.len() {
            (at(s, Stage::Measure), ActionView::MeasureGraph(s.handles[s.draw_index as int]))
        } else {
            (at(s, Stage::Halted), ActionView::Stop(Fault::IndexOutOfRange))
        }
    } else {
        (at(s, Stage::Idle), ActionView::Render(Picture::Nothing))
    }
}

pub open spec fn next_sound_delete(s: ConsoleModel) -> (ConsoleModel, ActionView) {
    if s.input == "del"@ {
        (at(s, Stage::Acked(Point::Render)), ActionView::DeleteSound(s.sound))
    } else {
        next_render(s)
    }
}

pub open spec fn next_sound_play(s: ConsoleModel) -> (ConsoleModel, ActionView) {
    if s.input == "play"@ {
        (at(s, Stage::SoundPlay), ask(false, false))
    } else {
        next_sound_delete(s)
    }
}

pub open spec fn next_graph_delete(s: ConsoleModel) -> (ConsoleModel, ActionView) {
    if s.input == "del"@ {
        (at(s, Stage::GraphDeleteIndex), ask(true, false))
    } else {
        next_render(s)
    }
}

pub open spec fn next_graph_draw(s: ConsoleModel) -> (ConsoleModel, ActionView) {
    if s.input == "draw"@ {
        (at(s, Stage::GraphDrawIndex), ask(true, false))
    } else {
        next_graph_delete(s)
    }
}

pub open spec fn next_graph_index(s: ConsoleModel) -> (ConsoleModel, ActionView) {
    if s.input == "index"@ {
        (at(s, Stage::Acked(Point::GraphDraw)), ActionView::ShowHandles(loaded_entries(s.handles)))
    } else {
        next_graph_draw(s)
    }
}

pub open spec fn next_graph_size(s: ConsoleModel) -> (ConsoleModel, ActionView) {
    if s.input == "size"@ {
        (at(s, Stage::GraphSizeIndex), ask(true, false))
    } else {
        next_graph_index(s)
    }
}

pub open spec fn next_text_color(s: ConsoleModel) -> (ConsoleModel, ActionView) {
    if s.input == "color"@ {
        (at(s, Stage::TextColor), ask(false, false))
    } else {
        next_render(s)
    }
}

pub open spec fn next_system_title(s: ConsoleModel) -> (ConsoleModel, ActionView) {
    if s.input == "title"@ {
        (at(s, Stage::SystemTitle), ask(false, false))
    } else {
        next_render(s)
    }
}

pub open spec fn next_system_exit(s: ConsoleModel) -> (ConsoleModel, ActionView) {
    if s.input == "exit"@ {
        (at(s, Stage::ExitAnswer), ActionView::ConfirmExit)
    } else {
        next_system_title(s)
    }
}

/// Where the script goes on at `p`.
pub open spec fn next_at(s: ConsoleModel, p: Point) -> (ConsoleModel, ActionView) {
    match p {
        Point::SystemExit => next_system_exit(s),
        Point::GraphSize => next_graph_size(s),
        Point::GraphIndex => next_graph_index(s),
        Point::GraphDraw => next_graph_draw(s),
        Point::SoundPlay => next_sound_play(s),
        Point::SoundDelete => next_sound_delete(s),
        Point::Render => next_render(s),
    }
}

/// The command in `s.input` is carried out, unless the user confirmed the end.
pub open spec fn next_command(s: ConsoleModel) -> (ConsoleModel, ActionView) {
    if s.end {
        (at(s, Stage::Finished), ActionView::Quit(s.handles))
    } else if s.input == "@sys"@ {
        (at(s, Stage::Word(Menu::System)), ask(false, false))
    } else if s.input == "string"@ {
        (at(s, Stage::Word(Menu::Text)), ask(false, false))
    } else if s.input == "file"@ {
        (at(s, Stage::Word(Menu::File)), ask(true, false))
    } else if s.input == "divgraph"@ {
        (at(s, Stage::Word(Menu::DivGraph)), ask(true, false))
    } else if s.input == "graph"@ {
        (at(s, Stage::Word(Menu::Graph)), ask(true, false))
    } else if s.input == "sound"@ {
        (at(s, Stage::Word(Menu::Sound)), ask(false, false))
    } else {
        next_render(s)
    }
}

/// A frame starts: with the colon key held the user enters a command first.
pub open spec fn next_frame(s: ConsoleModel, colon: bool) -> (ConsoleModel, ActionView) {
    if colon {
        (at(s, Stage::Command), ask(true, false))
    } else {
        next_command(s)
    }
}

/// The stages that wait for an entered text.
pub open spec fn awaits_text(stage: Stage) -> bool {
    match stage {
        Stage::Command | Stage::Word(_) | Stage::SystemOs | Stage::SystemTitle
        | Stage::SystemTitleText | Stage::TextEntry | Stage::TextColor | Stage::GraphLoadIndex
        | Stage::GraphSizeIndex | Stage::GraphDrawIndex | Stage::GraphDeleteIndex
        | Stage::SoundPlay => true,
        _ => false,
    }
}

/// Whether the console, in `stage`, waits for an event of the kind of `e`.
pub open spec fn awaits(stage: Stage, e: EventView) -> bool {
    match e {
        EventView::Frame { .. } => stage == Stage::Idle,
        EventView::Typed(_) => awaits_text(stage),
        EventView::Picked(_) => stage == Stage::FilePick || stage == Stage::GraphPick || stage
            == Stage::SoundPick,
        EventView::GraphLoaded(_) => stage == Stage::GraphLoad,
        EventView::SoundLoaded(_) => stage == Stage::SoundLoad,
        EventView::Answered(_) => stage == Stage::ExitAnswer,
        EventView::Measured { .. } => stage == Stage::Measure,
        EventView::Done => stage is Acked,
    }
}

/// The text `t` has been entered while `s.stage` waited for it.
pub open spec fn next_typed(s: ConsoleModel, t: Seq<char>) -> (ConsoleModel, ActionView) {
    let s1 = ConsoleModel { input: t, ..s };
    match s.stage {
        Stage::Command => next_command(s1),
        Stage::Word(Menu::System) => if t == "os"@ {
            (at(s1, Stage::SystemOs), ask(false, false))
        } else {
            next_system_exit(s1)
        },
        Stage::SystemOs => if t == "data"@ {
            (at(s1, Stage::Acked(Point::SystemExit)), ActionView::ShowSystemInfo)
        } else {
            next_system_exit(s1)
        },
        Stage::SystemTitle => if t == "set"@ {
            (at(s1, Stage::SystemTitleText), ask(false, true))
        } else {
            next_render(s1)
        },
        Stage::SystemTitleText => (at(s1, Stage::Acked(Point::Render)), ActionView::SetTitle(t)),
        Stage::Word(Menu::Text) => if t == "set"@ {
            (at(s1, Stage::TextEntry), ask(false, true))
        } else {
            next_text_color(s1)
        },
        Stage::TextEntry => next_text_color(ConsoleModel { texts: s.texts.push(t), ..s1 }),
        Stage::TextColor => next_render(ConsoleModel { color: color_named(t, s.color), ..s1 }),
        Stage::Word(Menu::File) => if t == "size"@ {
            (at(s1, Stage::FilePick), ActionView::PickImageFile)
        } else {
            next_render(s1)
        },
        Stage::Word(Menu::DivGraph) => next_render(s1),
        Stage::Word(Menu::Graph) => if t == "load"@ {
            (at(s1, Stage::GraphLoadIndex), ask(true, false))
        } else {
            next_graph_size(s1)
        },
        Stage::GraphLoadIndex => match parse_usize(t) {
            Some(n) => (at(ConsoleModel { index: n, ..s1 }, Stage::GraphPick), ActionView::PickImageFile),
            None => (at(s1, Stage::Halted), ActionView::Stop(Fault::NotANumber)),
        },
        Stage::GraphSizeIndex => match parse_usize(trim(t)) {
            Some(n) => if n < s.handles.len() {
                (at(s1, Stage::Acked(Point::GraphIndex)), ActionView::ShowGraphData(s.handles[n as int]))
            } else {
                (at(s1, Stage::Halted), ActionView::Stop(Fault::IndexOutOfRange))
            },
            None => (at(s1, Stage::Halted), ActionView::Stop(Fault::NotANumber)),
        },
        Stage::GraphDrawIndex => match parse_usize(t) {
            Some(n) => next_graph_delete(ConsoleModel { draw_index: n, draw_graph: true, ..s1 }),
            None => (at(s1, Stage::Halted), ActionView::Stop(Fault::NotANumber)),
        },
        Stage::GraphDeleteIndex => match parse_usize(t) {
            Some(n) => if n < s.handles.len() {
                (
                    ConsoleModel {
                        handles: s.handles.update(n as int, -1i32),
                        draw_graph: false,
                        stage: Stage::Acked(Point::Render),
                        ..s1
                    },
                    ActionView::DeleteGraph(s.handles[n as int]),
                )
            } else {
                (at(s1, Stage::Halted), ActionView::Stop(Fault::IndexOutOfRange))
            },
            None => (at(s1, Stage::Halted), ActionView::Stop(Fault::NotANumber)),
        },
        Stage::Word(Menu::Sound) => if t == "load"@ {
            (at(s1, Stage::SoundPick), ActionView::PickSoundFile)
        } else {
            next_sound_play(s1)
        },
        Stage::SoundPlay => if t == "back"@ {
            (at(s1, Stage::Acked(Point::SoundDelete)), ActionView::PlaySound(s.sound, PlayType::Back))
        } else if t == "normal"@ {
            (at(s1, Stage::Acked(Point::SoundDelete)), ActionView::PlaySound(s.sound, PlayType::Normal))
        } else if t == "loop"@ {
            (at(s1, Stage::Acked(Point::SoundDelete)), ActionView::PlaySound(s.sound, PlayType::Loop))
        } else {
            next_sound_delete(s1)
        },
        _ => (s, ActionView::Ignored),
    }
}

/// A file dialog has closed, with the path `p` if a file was chosen.
pub open spec fn next_picked(s: ConsoleModel, p: Option<Seq<char>>) -> (ConsoleModel, ActionView) {
    match s.stage {
        Stage::FilePick => match p {
            Some(path) => (at(s, Stage::Acked(Point::Render)), ActionView::ShowFileSize(path)),
            None => (at(s, Stage::Acked(Point::Render)), ActionView::ShowNoFileSelected),
        },
        Stage::GraphPick => match p {
            Some(path) => (at(s, Stage::GraphLoad), ActionView::LoadGraph(path)),
            None => (at(s, Stage::Acked(Point::GraphSize)), ActionView::ShowNoFileSelected),
        },
        Stage::SoundPick => match p {
            Some(path) => (at(s, Stage::SoundLoad), ActionView::LoadSound(path)),
            None => (at(s, Stage::Acked(Point::SoundPlay)), ActionView::ShowNoFileSelected),
        },
        _ => (s, ActionView::Ignored),
    }
}

/// The graphic loaded for `graph load` got handle `h`; it goes into slot `s.index`,
/// shifting the later slots up.
pub open spec fn next_graph_loaded(s: ConsoleModel, h: i32) -> (ConsoleModel, ActionView) {
    if s.index <= s.handles.len() {
        let s1 = ConsoleModel { handles: s.handles.insert(s.index as int, h), ..s };
        if h == -1 {
            (at(s1, Stage::Acked(Point::GraphSize)), ActionView::ShowGraphLoadFailure(h))
        } else {
            next_graph_size(s1)
        }
    } else {
        (at(s, Stage::Halted), ActionView::Stop(Fault::IndexOutOfRange))
    }
}

/// The sound loaded for `sound load` got handle `h`.
pub open spec fn next_sound_loaded(s: ConsoleModel, h: i32) -> (ConsoleModel, ActionView) {
    let s1 = ConsoleModel { sound: h, ..s };
    if h == -1 {
        (at(s1, Stage::Acked(Point::SoundPlay)), ActionView::ShowSoundLoadFailure(h))
    } else {
        next_sound_play(s1)
    }
}

/// The end flag after answer `a`.
pub open spec fn end_after(a: Answer, end: bool) -> bool {
    match a {
        Answer::Yes => true,
        Answer::No => false,
        Answer::Other => end,
    }
}

/// Reading the size of the graphic to draw gave `size`: the frame is drawn; a
/// graphic whose relation to the window is not Smaller (an unknown one too) is
/// stretched.
pub open spec fn next_measured(s: ConsoleModel, size: Option<(i32, i32)>) -> (ConsoleModel, ActionView) {
    if s.draw_index < s.handles.len() {
        (
            at(s, Stage::Idle),
            ActionView::Render(
                picture_spec(
                    measured_relation(size, WINDOW_WIDTH as int, WINDOW_HEIGHT as int),
                    s.handles[s.draw_index as int],
                ),
            ),
        )
    } else {
        (at(s, Stage::Halted), ActionView::Stop(Fault::IndexOutOfRange))
    }
}

/// What the console does on event `e` in state `s`: its next state and its action.
pub open spec fn next(s: ConsoleModel, e: EventView) -> (ConsoleModel, ActionView) {
    if !awaits(s.stage, e) {
        (s, ActionView::Ignored)
    } else {
        match e {
            EventView::Frame { colon } => next_frame(s, colon),
            EventView::Typed(t) => next_typed(s, t),
            EventView::Picked(p) => next_picked(s, p),
            EventView::GraphLoaded(h) => next_graph_loaded(s, h),
            EventView::SoundLoaded(h) => next_sound_loaded(s, h),
            EventView::Answered(a) => next_system_title(ConsoleModel { end: end_after(a, s.end), ..s }),
            EventView::Measured { size } => next_measured(s, size),
            EventView::Done => match s.stage {
                Stage::Acked(p) => next_at(s, p),
                _ => (s, ActionView::Ignored),
            },
        }
    }
}

/// The command console: the state of the sample program between its drawing,
/// input and loading calls.
pub struct Console {
    load_num: usize,
    handles: Vec<i32>,
    index: usize,
    draw_index: usize,
    draw_graph: bool,
    sound: i32,
    texts: Vec<String>,
    color: Color,
    end: bool,
    input: String,
    stage: Stage,
}

impl View for Console {
    type V = ConsoleModel;

    closed spec fn view(&self) -> ConsoleModel {
        ConsoleModel {
            load_num: self.load_num,
            handles: self.handles@,
            index: self.index,
            draw_index: self.draw_index,
            draw_graph: self.draw_graph,
            sound: self.sound,
            texts: self.texts@.map_values(|t: String| t@),
            color: self.color,
            end: self.end,
            input: self.input@,
            stage: self.stage,
        }
    }
}

fn ask_action(cancel_valid: bool, japanese: bool) -> (r: Action)
    ensures
        r@ == ask(cancel_valid, japanese),
{
    Action::Ask { x: KEY_INPUT_STRING_X, y: KEY_INPUT_STRING_Y, cancel_valid, japanese }
}

impl Console {
    /// A console configured by the text `conf`: its trimmed content is the number
    /// of graphic slots, all empty. `None` where it is not such a number.
    pub fn new(conf: &str) -> (r: Option<Console>)
        ensures
            match r {
                Some(c) => parse_usize(trim(conf@)) == Some(c@.load_num) && c@ == initial_model(
                    c@.load_num,
                ),
                None => parse_usize(trim(conf@)) is None,
            },
    {
        let cs = chars_of(conf);
        match parse_trimmed_usize_chars(&cs) {
            None => None,
            Some(n) => {
                let mut handles: Vec<i32> = Vec::new();
                let mut i: usize = 0;
                while i < n
                    invariant
                        i <= n,
                        handles@ == Seq::new(i as nat, |j: int| 0i32),
                    decreases n - i,
                {
                    handles.push(0);
                    i = i + 1;
                    assert(handles@ =~= Seq::new(i as nat, |j: int| 0i32));
                }
                let c = Console {
                    load_num: n,
                    handles,
                    index: 0,
                    draw_index: 0,
                    draw_graph: false,
                    sound: 0,
                    texts: Vec::new(),
                    color: Color { r: 255, g: 255, b: 255 },
                    end: false,
                    input: String::new(),
                    stage: Stage::Idle,
                };
                assert(c@.texts =~= Seq::<Seq<char>>::empty());
                assert(c@ =~= initial_model(n));
                Some(c)
            },
        }
    }

    /// The number of graphic slots that the configuration asked for.
    pub fn load_num(&self) -> (r: usize)
        ensures
            r == self@.load_num,
    {
        self.load_num
    }

    /// The graphic handles by slot.
    pub fn handles(&self) -> (r: &Vec<i32>)
        ensures
            r@ == self@.handles,
    {
        &self.handles
    }

    /// The texts entered with `string set`, in order.
    pub fn texts(&self) -> (r: &Vec<String>)
        ensures
            r@.map_values(|t: String| t@) == self@.texts,
    {
        &self.texts
    }

    /// The color in which the texts are drawn.
    pub fn text_color(&self) -> (r: Color)
        ensures
            r == self@.color,
    {
        self.color
    }

    /// What the console waits for.
    pub fn stage(&self) -> (r: Stage)
        ensures
            r == self@.stage,
    {
        self.stage
    }

    fn input_is(&self, word: &str) -> (r: bool)
        ensures
            r == (self@.input == word@),
    {
        same_text(self.input.as_str(), word)
    }

    fn halt(&mut self, fault: Fault) -> (r: Action)
        ensures
            final(self)@ == at(old(self)@, Stage::Halted),
            r@ == ActionView::Stop(fault),
    {
        self.stage = Stage::Halted;
        Action::Stop(fault)
    }

    fn wait(&mut self, stage: Stage, action: Action) -> (r: Action)
        ensures
            final(self)@ == at(old(self)@, stage),
            r == action,
    {
        self.stage = stage;
        action
    }

    fn next_render(&mut self) -> (r: Action)
        ensures
            (final(self)@, r@) == next_render(old(self)@),
    {
        if self.draw_graph {
            if self.draw_index < self.handles.len() {
                let h = self.handles[self.draw_index];
                self.wait(Stage::Measure, Action::MeasureGraph(h))
            } else {
                self.halt(Fault::IndexOutOfRange)
            }
        } else {
            self.wait(Stage::Idle, Action::Render(Picture::Nothing))
        }
    }

    fn next_sound_delete(&mut self) -> (r: Action)
        ensures
            (final(self)@, r@) == next_sound_delete(old(self)@),
    {
        if self.input_is("del") {
            let h = self.sound;
            self.wait(Stage::Acked(Point::Render), Action::DeleteSound(h))
        } else {
            self.next_render()
        }
    }

    fn next_sound_play(&mut self) -> (r: Action)
        ensures
            (final(self)@, r@) == next_sound_play(old(self)@),
    {
        if self.input_is("play") {
            self.wait(Stage::SoundPlay, ask_action(false, false))
        } else {
            self.next_sound_delete()
        }
    }

    fn next_graph_delete(&mut self) -> (r: Action)
        ensures
            (final(self)@, r@) == next_graph_delete(old(self)@),
    {
        if self.input_is("del") {
            self.wait(Stage::GraphDeleteIndex, ask_action(true, false))
        } else {
            self.next_render()
        }
    }

    fn next_graph_draw(&mut self) -> (r: Action)
        ensures
            (final(self)@, r@) == next_graph_draw(old(self)@),
    {
        if self.input_is("draw") {
            self.wait(Stage::GraphDrawIndex, ask_action(true, false))
        } else {
            self.next_graph_delete()
        }
    }

    fn next_graph_index(&mut self) -> (r: Action)
        ensures
            (final(self)@, r@) == next_graph_index(old(self)@),
    {
        if self.input_is("index") {
            let entries = graph_handle_to_index(&self.handles);
            self.wait(Stage::Acked(Point::GraphDraw), Action::ShowHandles(entries))
        } else {
            self.next_graph_draw()
        }
    }

    fn next_graph_size(&mut self) -> (r: Action)
        ensures
            (final(self)@, r@) == next_graph_size(old(self)@),
    {
        if self.input_is("size") {
            self.wait(Stage::GraphSizeIndex, ask_action(true, false))
        } else {
            self.next_graph_index()
        }
    }

    fn next_text_color(&mut self) -> (r: Action)
        ensures
            (final(self)@, r@) == next_text_color(old(self)@),
    {
        if self.input_is("color") {
            self.wait(Stage::TextColor, ask_action(false, false))
        } else {
            self.next_render()
        }
    }

    fn next_system_title(&mut self) -> (r: Action)
        ensures
            (final(self)@, r@) == next_system_title(old(self)@),
    {
        if self.input_is("title") {
            self.wait(Stage::SystemTitle, ask_action(false, false))
        } else {
            self.next_render()
        }
    }

    fn next_system_exit(&mut self) -> (r: Action)
        ensures
            (final(self)@, r@) == next_system_exit(old(self)@),
    {
        if self.input_is("exit") {
            self.wait(Stage::ExitAnswer, Action::ConfirmExit)
        } else {
            self.next_system_title()
        }
    }

    fn next_at(&mut self, p: Point) -> (r: Action)
        ensures
            (final(self)@, r@) == next_at(old(self)@, p),
    {
        match p {
            Point::SystemExit => self.next_system_exit(),
            Point::GraphSize => self.next_graph_size(),
            Point::GraphIndex => self.next_graph_index(),
            Point::GraphDraw => self.next_graph_draw(),
            Point::SoundPlay => self.next_sound_play(),
            Point::SoundDelete => self.next_sound_delete(),
            Point::Render => self.next_render(),
        }
    }

    fn next_command(&mut self) -> (r: Action)
        ensures
            (final(self)@, r@) == next_command(old(self)@),
    {
        if self.end {
            let v = self.handles.clone();
            self.wait(Stage::Finished, Action::Quit(v))
        } else if self.input_is("@sys") {
            self.wait(Stage::Word(Menu::System), ask_action(false, false))
        } else if self.input_is("string") {
            self.wait(Stage::Word(Menu::Text), ask_action(false, false))
        } else if self.input_is("file") {
            self.wait(Stage::Word(Menu::File), ask_action(true, false))
        } else if self.input_is("divgraph") {
            self.wait(Stage::Word(Menu::DivGraph), ask_action(true, false))
        } else if self.input_is("graph") {
            self.wait(Stage::Word(Menu::Graph), ask_action(true, false))
        } else if self.input_is("sound") {
            self.wait(Stage::Word(Menu::Sound), ask_action(false, false))
        } else {
            self.next_render()
        }
    }

    fn parse_input(&self) -> (r: Option<usize>)
        ensures
            r == parse_usize(self@.input),
    {
        let cs = chars_of(self.input.as_str());
        parse_usize_chars(&cs)
    }

    fn parse_trimmed_input(&self) -> (r: Option<usize>)
        ensures
            r == parse_usize(trim(self@.input)),
    {
        let cs = chars_of(self.input.as_str());
        parse_trimmed_usize_chars(&cs)
    }

    fn on_typed(&mut self, t: String) -> (r: Action)
        requires
            awaits_text(old(self)@.stage),
        ensures
            (final(self)@, r@) == next_typed(old(self)@, t@),
    {
        let stage = self.stage;
        self.input = t;
        match stage {
            Stage::Command => self.next_command(),
            Stage::Word(Menu::System) => {
                if self.input_is("os") {
                    self.wait(Stage::SystemOs, ask_action(false, false))
                } else {
                    self.next_system_exit()
                }
            },
            Stage::SystemOs => {
                if self.input_is("data") {
                    self.wait(Stage::Acked(Point::SystemExit), Action::ShowSystemInfo)
                } else {
                    self.next_system_exit()
                }
            },
            Stage::SystemTitle => {
                if self.input_is("set") {
                    self.wait(Stage::SystemTitleText, ask_action(false, true))
                } else {
                    self.next_render()
                }
            },
            Stage::SystemTitleText => {
                let title = self.input.clone();
                self.wait(Stage::Acked(Point::Render), Action::SetTitle(title))
            },
            Stage::Word(Menu::Text) => {
                if self.input_is("set") {
                    self.wait(Stage::TextEntry, ask_action(false, true))
                } else {
                    self.next_text_color()
                }
            },
            Stage::TextEntry => {
                let entry = self.input.clone();
                let ghost before = self.texts@;
                self.texts.push(entry);
                assert(self.texts@.map_values(|t: String| t@) =~= before.map_values(
                    |t: String| t@,
                ).push(self.input@));
                self.next_text_color()
            },
            Stage::TextColor => {
                if self.input_is("red") {
                    self.color = Color { r: 255, g: 0, b: 0 };
                } else if self.input_is("green") {
                    self.color = Color { r: 0, g: 255, b: 0 };
                } else if self.input_is("blue") {
                    self.color = Color { r: 0, g: 0, b: 255 };
                }
                self.next_render()
            },
            Stage::Word(Menu::File) => {
                if self.input_is("size") {
                    self.wait(Stage::FilePick, Action::PickImageFile)
                } else {
                    self.next_render()
                }
            },
            Stage::Word(Menu::DivGraph) => self.next_render(),
            Stage::Word(Menu::Graph) => {
                if self.input_is("load") {
                    self.wait(Stage::GraphLoadIndex, ask_action(true, false))
                } else {
                    self.next_graph_size()
                }
            },
            Stage::GraphLoadIndex => match self.parse_input() {
                Some(n) => {
                    self.index = n;
                    self.wait(Stage::GraphPick, Action::PickImageFile)
                },
                None => self.halt(Fault::NotANumber),
            },
            Stage::GraphSizeIndex => match self.parse_trimmed_input() {
                Some(n) => {
                    if n < self.handles.len() {
                        let h = self.handles[n];
                        self.wait(Stage::Acked(Point::GraphIndex), Action::ShowGraphData(h))
                    } else {
                        self.halt(Fault::IndexOutOfRange)
                    }
                },
                None => self.halt(Fault::NotANumber),
            },
            Stage::GraphDrawIndex => match self.parse_input() {
                Some(n) => {
                    self.draw_index = n;
                    self.draw_graph = true;
                    self.next_graph_delete()
                },
                None => self.halt(Fault::NotANumber),
            },
            Stage::GraphDeleteIndex => match self.parse_input() {
                Some(n) => {
                    if n < self.handles.len() {
                        let h = self.handles[n];
                        self.handles.set(n, -1);
                        self.draw_graph = false;
                        self.wait(Stage::Acked(Point::Render), Action::DeleteGraph(h))
                    } else {
                        self.halt(Fault::IndexOutOfRange)
                    }
                },
                None => self.halt(Fault::NotANumber),
            },
            Stage::Word(Menu::Sound) => {
                if self.input_is("load") {
                    self.wait(Stage::SoundPick, Action::PickSoundFile)
                } else {
                    self.next_sound_play()
                }
            },
            Stage::SoundPlay => {
                let h = self.sound;
                if self.input_is("back") {
                    self.wait(
                        Stage::Acked(Point::SoundDelete),
                        Action::PlaySound(h, PlayType::Back),
                    )
                } else if self.input_is("normal") {
                    self.wait(
                        Stage::Acked(Point::SoundDelete),
                        Action::PlaySound(h, PlayType::Normal),
                    )
                } else if self.input_is("loop") {
                    self.wait(
                        Stage::Acked(Point::SoundDelete),
                        Action::PlaySound(h, PlayType::Loop),
                    )
                } else {
                    self.next_sound_delete()
                }
            },
            _ => {
                proof {
                    assert(false);
                }
                Action::Ignored
            },
        }
    }

    fn on_picked(&mut self, p: Option<String>) -> (r: Action)
        ensures
            (final(self)@, r@) == next_picked(
                old(self)@,
                match p {
                    Some(x) => Some(x@),
                    None => None,
                },
            ),
    {
        match self.stage {
            Stage::FilePick => match p {
                Some(path) => self.wait(Stage::Acked(Point::Render), Action::ShowFileSize(path)),
                None => self.wait(Stage::Acked(Point::Render), Action::ShowNoFileSelected),
            },
            Stage::GraphPick => match p {
                Some(path) => self.wait(Stage::GraphLoad, Action::LoadGraph(path)),
                None => self.wait(Stage::Acked(Point::GraphSize), Action::ShowNoFileSelected),
            },
            Stage::SoundPick => match p {
                Some(path) => self.wait(Stage::SoundLoad, Action::LoadSound(path)),
                None => self.wait(Stage::Acked(Point::SoundPlay), Action::ShowNoFileSelected),
            },
            _ => Action::Ignored,
        }
    }

    fn on_graph_loaded(&mut self, h: i32) -> (r: Action)
        ensures
            (final(self)@, r@) == next_graph_loaded(old(self)@, h),
    {
        if self.index <= self.handles.len() {
            self.handles.insert(self.index, h);
            if h == -1 {
                self.wait(Stage::Acked(Point::GraphSize), Action::ShowGraphLoadFailure(h))
            } else {
                self.next_graph_size()
            }
        } else {
            self.halt(Fault::IndexOutOfRange)
        }
    }

    fn on_sound_loaded(&mut self, h: i32) -> (r: Action)
        ensures
            (final(self)@, r@) == next_sound_loaded(old(self)@, h),
    {
        self.sound = h;
        if h == -1 {
            self.wait(Stage::Acked(Point::SoundPlay), Action::ShowSoundLoadFailure(h))
        } else {
            self.next_sound_play()
        }
    }

    fn on_measured(&mut self, size: Option<(i32, i32)>) -> (r: Action)
        ensures
            (final(self)@, r@) == next_measured(old(self)@, size),
    {
        if self.draw_index < self.handles.len() {
            let handle = self.handles[self.draw_index];
            let kind = match graph_to_size(size, WINDOW_WIDTH, WINDOW_HEIGHT) {
                Some(k) => k,
                None => SizeReration::Unknown,
            };
            self.wait(Stage::Idle, Action::Render(picture_for(kind, handle)))
        } else {
            self.halt(Fault::IndexOutOfRange)
        }
    }

    /// Carries out event `e`: the console moves to its next state and names the
    /// action that the outside world performs next. An event of another kind than
    /// the awaited one changes nothing and gives `Ignored`.
    pub fn step(&mut self, e: Event) -> (r: Action)
        ensures
            (final(self)@, r@) == next(old(self)@, e@),
    {
        match e {
            Event::Frame { colon } => {
                if self.stage == Stage::Idle {
                    if colon {
                        self.wait(Stage::Command, ask_action(true, false))
                    } else {
                        self.next_command()
                    }
                } else {
                    Action::Ignored
                }
            },
            Event::Typed(t) => {
                match self.stage {
                    Stage::Command | Stage::Word(_) | Stage::SystemOs | Stage::SystemTitle
                    | Stage::SystemTitleText | Stage::TextEntry | Stage::TextColor
                    | Stage::GraphLoadIndex | Stage::GraphSizeIndex | Stage::GraphDrawIndex
                    | Stage::GraphDeleteIndex | Stage::SoundPlay => self.on_typed(t),
                    _ => Action::Ignored,
                }
            },
            Event::Picked(p) => self.on_picked(p),
            Event::GraphLoaded(h) => {
                if self.stage == Stage::GraphLoad {
                    self.on_graph_loaded(h)
                } else {
                    Action::Ignored
                }
            },
            Event::SoundLoaded(h) => {
                if self.stage == Stage::SoundLoad {
                    self.on_sound_loaded(h)
                } else {
                    Action::Ignored
                }
            },
            Event::Answered(a) => {
                if self.stage == Stage::ExitAnswer {
                    match a {
                        Answer::Yes => {
                            self.end = true;
                        },
                        Answer::No => {
                            self.end = false;
                        },
                        Answer::Other => {},
                    }
                    self.next_system_title()
                } else {
                    Action::Ignored
                }
            },
            Event::Measured { size } => {
                if self.stage == Stage::Measure {
                    self.on_measured(size)
                } else {
                    Action::Ignored
                }
            },
            Event::Done => match self.stage {
                Stage::Acked(p) => self.next_at(p),
                _ => Action::Ignored,
            },
        }
    }
}

} // verus!
