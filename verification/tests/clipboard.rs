use termpop::clipboard::{paste_steps, PasteStep};

#[test]
fn paste_with_previous_app() {
    assert_eq!(
        paste_steps(true),
        vec![
            PasteStep::PutText,
            PasteStep::Wait(100),
            PasteStep::ActivatePreviousApp,
            PasteStep::Wait(100),
            PasteStep::Paste,
            PasteStep::Wait(300),
            PasteStep::RestoreSaved,
        ]
    );
}

#[test]
fn paste_without_previous_app() {
    assert_eq!(
        paste_steps(false),
        vec![PasteStep::PutText, PasteStep::Paste, PasteStep::Wait(300), PasteStep::RestoreSaved]
    );
}

#[test]
fn clipboard_ends_as_it_was() {
    // Simulate a clipboard of items, each a list of (type, bytes), through the steps.
    let image: Vec<Vec<(String, Vec<u8>)>> =
        vec![vec![("public.png".to_string(), vec![0x89, 0x50, 0x4e, 0x47])]];
    let text: Vec<Vec<(String, Vec<u8>)>> =
        vec![vec![("public.utf8-plain-text".to_string(), b"before".to_vec())]];
    let empty: Vec<Vec<(String, Vec<u8>)>> = Vec::new();
    let submitted: Vec<Vec<(String, Vec<u8>)>> =
        vec![vec![("public.utf8-plain-text".to_string(), b"submitted".to_vec())]];
    for former in [image, text, empty] {
        for previous_app in [true, false] {
            let saved = former.clone();
            let mut clipboard = former.clone();
            let mut seen_at_paste = Vec::new();
            for step in paste_steps(previous_app) {
                match step {
                    PasteStep::PutText => clipboard = submitted.clone(),
                    PasteStep::RestoreSaved => clipboard = saved.clone(),
                    PasteStep::Paste => seen_at_paste.push(clipboard.clone()),
                    PasteStep::Wait(_) | PasteStep::ActivatePreviousApp => {}
                }
            }
            assert_eq!(seen_at_paste, vec![submitted.clone()]);
            assert_eq!(clipboard, former);
        }
    }
}
