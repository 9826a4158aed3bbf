use dx_console::console::{Action, Answer, Color, Console, Event, Fault, PlayType, Stage};
use dx_console::size::Picture;

fn console(slots: &str) -> Console {
    Console::new(slots).expect("configuration")
}

fn typed(c: &mut Console, t: &str) -> Action {
    c.step(Event::Typed(t.to_string()))
}

fn ask(cancel_valid: bool, japanese: bool) -> Action {
    Action::Ask { x: 45, y: 460, cancel_valid, japanese }
}

/// Runs one command line: colon, then each word.
fn command(c: &mut Console, words: &[&str]) -> Action {
    assert_eq!(c.step(Event::Frame { colon: true }), ask(true, false));
    let mut last = Action::Ignored;
    for w in words {
        last = typed(c, w);
    }
    last
}

#[test]
fn configuration_gives_empty_slots() {
    let c = console(" 3\n");
    assert_eq!(c.load_num(), 3);
    assert_eq!(c.handles(), &vec![0, 0, 0]);
    assert_eq!(c.stage(), Stage::Idle);
    assert!(c.texts().is_empty());
    assert_eq!(c.text_color(), Color { r: 255, g: 255, b: 255 });
    assert!(Console::new("three").is_none());
    assert!(Console::new("").is_none());
    assert!(Console::new("-2").is_none());
    assert_eq!(console("+0").handles().len(), 0);
}

#[test]
fn plain_frame_draws_nothing_else() {
    let mut c = console("2");
    assert_eq!(c.step(Event::Frame { colon: false }), Action::Render(Picture::Nothing));
    assert_eq!(c.stage(), Stage::Idle);
}

#[test]
fn unexpected_events_are_ignored() {
    let mut c = console("2");
    assert_eq!(c.step(Event::Done), Action::Ignored);
    assert_eq!(typed(&mut c, "graph"), Action::Ignored);
    assert_eq!(c.step(Event::GraphLoaded(3)), Action::Ignored);
    assert_eq!(c.step(Event::Measured { size: Some((1, 1)) }), Action::Ignored);
    assert_eq!(c.stage(), Stage::Idle);
}

#[test]
fn graph_load_inserts_into_slot() {
    let mut c = console("3");
    assert_eq!(command(&mut c, &["graph"]), ask(true, false));
    assert_eq!(typed(&mut c, "load"), ask(true, false));
    assert_eq!(typed(&mut c, "1"), Action::PickImageFile);
    assert_eq!(c.step(Event::Picked(Some("a.png".to_string()))), Action::LoadGraph("a.png".to_string()));
    assert_eq!(c.step(Event::GraphLoaded(7)), Action::Render(Picture::Nothing));
    assert_eq!(c.handles(), &vec![0, 7, 0, 0]);
}

#[test]
fn graph_load_failure_is_reported() {
    let mut c = console("1");
    command(&mut c, &["graph", "load", "0"]);
    c.step(Event::Picked(Some("bad.png".to_string())));
    assert_eq!(c.step(Event::GraphLoaded(-1)), Action::ShowGraphLoadFailure(-1));
    assert_eq!(c.step(Event::Done), Action::Render(Picture::Nothing));
    assert_eq!(c.handles(), &vec![-1, 0]);
}

#[test]
fn graph_load_without_file() {
    let mut c = console("1");
    command(&mut c, &["graph", "load", "0"]);
    assert_eq!(c.step(Event::Picked(None)), Action::ShowNoFileSelected);
    assert_eq!(c.step(Event::Done), Action::Render(Picture::Nothing));
    assert_eq!(c.handles(), &vec![0]);
}

#[test]
fn graph_load_beyond_slots_stops() {
    let mut c = console("1");
    command(&mut c, &["graph", "load", "5"]);
    c.step(Event::Picked(Some("a.png".to_string())));
    assert_eq!(c.step(Event::GraphLoaded(9)), Action::Stop(Fault::IndexOutOfRange));
    assert_eq!(c.stage(), Stage::Halted);
    assert_eq!(c.step(Event::Frame { colon: false }), Action::Ignored);
}

#[test]
fn graph_load_with_bad_number_stops() {
    let mut c = console("1");
    assert_eq!(command(&mut c, &["graph", "load", " 1"]), Action::Stop(Fault::NotANumber));
    assert_eq!(c.stage(), Stage::Halted);
}

#[test]
fn graph_index_lists_loaded_slots() {
    let mut c = console("2");
    command(&mut c, &["graph", "load", "0"]);
    c.step(Event::Picked(Some("a.png".to_string())));
    c.step(Event::GraphLoaded(11));
    assert_eq!(command(&mut c, &["graph", "index"]), Action::ShowHandles(vec![(0, 11)]));
    assert_eq!(c.step(Event::Done), Action::Render(Picture::Nothing));
}

#[test]
fn graph_size_trims_its_index() {
    let mut c = console("2");
    command(&mut c, &["graph", "load", "1"]);
    c.step(Event::Picked(Some("a.png".to_string())));
    c.step(Event::GraphLoaded(5));
    assert_eq!(command(&mut c, &["graph", "size", " 1 "]), Action::ShowGraphData(5));
    assert_eq!(c.step(Event::Done), Action::Render(Picture::Nothing));
    assert_eq!(command(&mut c, &["graph", "size", "9"]), Action::Stop(Fault::IndexOutOfRange));
}

#[test]
fn graph_draw_measures_then_draws() {
    let mut c = console("1");
    command(&mut c, &["graph", "load", "0"]);
    c.step(Event::Picked(Some("a.png".to_string())));
    c.step(Event::GraphLoaded(21));
    assert_eq!(command(&mut c, &["graph", "draw", "0"]), Action::MeasureGraph(21));
    assert_eq!(
        c.step(Event::Measured { size: Some((800, 100)) }),
        Action::Render(Picture::Stretched { handle: 21, left: 5, top: 80, right: 218, bottom: 240 })
    );
    assert_eq!(c.step(Event::Frame { colon: false }), Action::MeasureGraph(21));
    assert_eq!(
        c.step(Event::Measured { size: Some((100, 100)) }),
        Action::Render(Picture::Plain { handle: 21, x: 5, y: 80 })
    );
}

#[test]
fn graph_of_unknown_size_is_stretched() {
    let mut c = console("1");
    command(&mut c, &["graph", "load", "0"]);
    c.step(Event::Picked(Some("a.png".to_string())));
    c.step(Event::GraphLoaded(21));
    assert_eq!(command(&mut c, &["graph", "draw", "0"]), Action::MeasureGraph(21));
    assert_eq!(
        c.step(Event::Measured { size: None }),
        Action::Render(Picture::Stretched { handle: 21, left: 5, top: 80, right: 218, bottom: 240 })
    );
}

#[test]
fn graph_draw_beyond_slots_stops_at_drawing() {
    let mut c = console("1");
    assert_eq!(command(&mut c, &["graph", "draw", "4"]), Action::Stop(Fault::IndexOutOfRange));
}

#[test]
fn graph_del_releases_slot() {
    let mut c = console("1");
    command(&mut c, &["graph", "load", "0"]);
    c.step(Event::Picked(Some("a.png".to_string())));
    c.step(Event::GraphLoaded(21));
    command(&mut c, &["graph", "draw", "0"]);
    c.step(Event::Measured { size: Some((1, 1)) });
    assert_eq!(command(&mut c, &["graph", "del", "0"]), Action::DeleteGraph(21));
    assert_eq!(c.step(Event::Done), Action::Render(Picture::Nothing));
    assert_eq!(c.handles(), &vec![-1, 0]);
    assert_eq!(command(&mut c, &["graph", "del", "x"]), Action::Stop(Fault::NotANumber));
}

#[test]
fn exit_confirmed_quits_next_frame() {
    let mut c = console("2");
    assert_eq!(command(&mut c, &["@sys", "exit"]), Action::ConfirmExit);
    assert_eq!(c.step(Event::Answered(Answer::Yes)), Action::Render(Picture::Nothing));
    assert_eq!(c.step(Event::Frame { colon: false }), Action::Quit(vec![0, 0]));
    assert_eq!(c.stage(), Stage::Finished);
    assert_eq!(c.step(Event::Frame { colon: false }), Action::Ignored);
}

#[test]
fn exit_declined_goes_on() {
    let mut c = console("2");
    command(&mut c, &["@sys", "exit"]);
    assert_eq!(c.step(Event::Answered(Answer::No)), Action::Render(Picture::Nothing));
    assert_eq!(c.step(Event::Frame { colon: false }), Action::Render(Picture::Nothing));
}

#[test]
fn exit_after_os_data() {
    let mut c = console("0");
    assert_eq!(command(&mut c, &["@sys", "os", "data"]), Action::ShowSystemInfo);
    assert_eq!(c.step(Event::Done), Action::Render(Picture::Nothing));
    assert_eq!(command(&mut c, &["@sys", "os", "exit"]), Action::ConfirmExit);
}

#[test]
fn title_set() {
    let mut c = console("0");
    assert_eq!(command(&mut c, &["@sys", "title", "set"]), ask(false, true));
    assert_eq!(typed(&mut c, "タイトル"), Action::SetTitle("タイトル".to_string()));
    assert_eq!(c.step(Event::Done), Action::Render(Picture::Nothing));
}

#[test]
fn string_set_and_color() {
    let mut c = console("0");
    assert_eq!(command(&mut c, &["string", "set"]), ask(false, true));
    assert_eq!(typed(&mut c, "こんにちは"), Action::Render(Picture::Nothing));
    assert_eq!(c.texts(), &vec!["こんにちは".to_string()]);
    assert_eq!(command(&mut c, &["string", "color"]), ask(false, false));
    assert_eq!(typed(&mut c, "red"), Action::Render(Picture::Nothing));
    assert_eq!(c.text_color(), Color { r: 255, g: 0, b: 0 });
    command(&mut c, &["string", "color", "purple"]);
    assert_eq!(c.text_color(), Color { r: 255, g: 0, b: 0 });
    command(&mut c, &["string", "color", "blue"]);
    assert_eq!(c.text_color(), Color { r: 0, g: 0, b: 255 });
    command(&mut c, &["string", "color", "green"]);
    assert_eq!(c.text_color(), Color { r: 0, g: 255, b: 0 });
}

#[test]
fn string_set_color_asks_for_a_color() {
    let mut c = console("0");
    command(&mut c, &["string", "set"]);
    assert_eq!(typed(&mut c, "color"), ask(false, false));
    assert_eq!(c.texts(), &vec!["color".to_string()]);
}

#[test]
fn stale_input_is_run_again_on_the_next_frame() {
    let mut c = console("0");
    command(&mut c, &["string", "set"]);
    assert_eq!(typed(&mut c, "graph"), Action::Render(Picture::Nothing));
    assert_eq!(c.step(Event::Frame { colon: false }), ask(true, false));
    assert_eq!(c.stage(), Stage::Word(dx_console::console::Menu::Graph));
}

#[test]
fn file_size() {
    let mut c = console("0");
    assert_eq!(command(&mut c, &["file", "size"]), Action::PickImageFile);
    assert_eq!(c.step(Event::Picked(Some("x.jpg".to_string()))), Action::ShowFileSize("x.jpg".to_string()));
    assert_eq!(c.step(Event::Done), Action::Render(Picture::Nothing));
    command(&mut c, &["file", "size"]);
    assert_eq!(c.step(Event::Picked(None)), Action::ShowNoFileSelected);
}

#[test]
fn divgraph_does_nothing() {
    let mut c = console("0");
    assert_eq!(command(&mut c, &["divgraph", "set"]), Action::Render(Picture::Nothing));
}

#[test]
fn sound_load_play_and_delete() {
    let mut c = console("0");
    assert_eq!(command(&mut c, &["sound", "load"]), Action::PickSoundFile);
    assert_eq!(c.step(Event::Picked(Some("a.ogg".to_string()))), Action::LoadSound("a.ogg".to_string()));
    assert_eq!(c.step(Event::SoundLoaded(4)), Action::Render(Picture::Nothing));
    assert_eq!(command(&mut c, &["sound", "play", "loop"]), Action::PlaySound(4, PlayType::Loop));
    assert_eq!(c.step(Event::Done), Action::Render(Picture::Nothing));
    assert_eq!(command(&mut c, &["sound", "play", "back"]), Action::PlaySound(4, PlayType::Back));
    c.step(Event::Done);
    assert_eq!(command(&mut c, &["sound", "play", "normal"]), Action::PlaySound(4, PlayType::Normal));
    c.step(Event::Done);
    assert_eq!(command(&mut c, &["sound", "del"]), Action::DeleteSound(4));
    assert_eq!(c.step(Event::Done), Action::Render(Picture::Nothing));
}

#[test]
fn sound_load_failure() {
    let mut c = console("0");
    command(&mut c, &["sound", "load"]);
    c.step(Event::Picked(Some("a.ogg".to_string())));
    assert_eq!(c.step(Event::SoundLoaded(-1)), Action::ShowSoundLoadFailure(-1));
    assert_eq!(c.step(Event::Done), Action::Render(Picture::Nothing));
    command(&mut c, &["sound", "load"]);
    assert_eq!(c.step(Event::Picked(None)), Action::ShowNoFileSelected);
}

#[test]
fn quit_releases_all_slots() {
    let mut c = console("2");
    command(&mut c, &["graph", "load", "2"]);
    c.step(Event::Picked(Some("a.png".to_string())));
    c.step(Event::GraphLoaded(33));
    command(&mut c, &["@sys", "exit"]);
    c.step(Event::Answered(Answer::Yes));
    assert_eq!(c.step(Event::Frame { colon: true }), ask(true, false));
    assert_eq!(typed(&mut c, "anything"), Action::Quit(vec![0, 0, 33]));
}

#[test]
fn other_answer_keeps_end_flag() {
    let mut c = console("0");
    command(&mut c, &["@sys", "exit"]);
    assert_eq!(c.step(Event::Answered(Answer::Other)), Action::Render(Picture::Nothing));
    assert_eq!(c.step(Event::Frame { colon: false }), Action::Render(Picture::Nothing));
}
