use grading_runner::line::{Line, Tag};
use grading_runner::messages::SubmissionResponse;
use grading_runner::style::{paint, Tone};

fn colour_off() {
    colored::control::set_override(false);
}

#[test]
fn text_comes_out_as_it_is_in_every_tone() {
    colour_off();
    for tone in [Tone::Plain, Tone::Red, Tone::Green, Tone::Yellow, Tone::Blue] {
        assert_eq!(paint("Test failed.", tone), "Test failed.");
        assert_eq!(paint("", tone), "");
        assert_eq!(paint("⚡️", tone), "⚡️");
    }
}

#[test]
fn tagged_line_is_label_space_text() {
    colour_off();
    let line = Line { tag: Some(Tag::Build), text: "Compiling dcs-rsm v0.1.0".to_string(), tone: Tone::Plain };
    assert_eq!(line.render(), "[build] Compiling dcs-rsm v0.1.0");
    let line = Line { tag: Some(Tag::Program), text: "ok".to_string(), tone: Tone::Plain };
    assert_eq!(line.render(), "[your_program] ok");
    let line = Line { tag: Some(Tag::Tester), text: "$ cargo run".to_string(), tone: Tone::Blue };
    assert_eq!(line.render(), "[tester::rsm_l2c3] $ cargo run");
}

#[test]
fn untagged_line_is_its_text() {
    colour_off();
    let line = Line { tag: None, text: "Test failed.".to_string(), tone: Tone::Red };
    assert_eq!(line.render(), "Test failed.");
}

#[test]
fn success_group_without_colour() {
    colour_off();
    let response = SubmissionResponse::new();
    let rendered: Vec<String> = response.on_success_messages().iter().map(|line| line.render()).collect();
    assert_eq!(
        rendered,
        vec![
            "All tests passed.",
            "",
            "Great job! 🎉",
            "",
            "Move to the next step: https://dotcodeschool.com/courses/rust-state-machine",
        ]
    );
}
