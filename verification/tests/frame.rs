use engine::frame::{next_action, FrameAction};
use engine::input::{Input, InputEvent, ESCAPE_SCANCODE};

#[test]
fn frames_are_drawn_until_quit() {
    let mut input = Input::new();
    assert_eq!(next_action(&input), FrameAction::Draw);
    input.apply(InputEvent::Minimized);
    assert_eq!(next_action(&input), FrameAction::Skip);
    input.apply(InputEvent::Restored);
    assert_eq!(next_action(&input), FrameAction::Draw);
    input.apply(InputEvent::KeyDown { scancode: ESCAPE_SCANCODE, repeat: false });
    assert_eq!(next_action(&input), FrameAction::Stop);
    input.apply(InputEvent::Minimized);
    assert_eq!(next_action(&input), FrameAction::Stop);
}
