use std::collections::HashMap;
use std::io::Cursor;

use image::{GenericImageView, ImageFormat, Rgb, RgbImage};
use image_upload::batch::aggregate;
use image_upload::outcome::{SaveOutcome, StatusCode};
use image_upload::preview::render_preview;
use image_upload::session::{
    check_conflict, classify_write_error, preview_outcome, FsErrorKind, SaveAction, SaveEvent,
    SaveSession, SaveStage, WriteError,
};

fn encoded(width: u32, height: u32, format: ImageFormat) -> Vec<u8> {
    let img = RgbImage::from_fn(width, height, |x, y| Rgb([(x * 7) as u8, (y * 3) as u8, 90]));
    let mut buf = Cursor::new(Vec::new());
    img.write_to(&mut buf, format).unwrap();
    buf.into_inner()
}

fn outcome(status: StatusCode, message: &str) -> SaveOutcome {
    SaveOutcome { status, message: message.to_string() }
}

/// Runs one save against an in-memory directory tree: a path is taken once
/// it is a key of `files`; names ending in '/' are refused as directories.
fn run_save(files: &mut HashMap<String, Vec<u8>>, dir: &str, name: &str, content: &[u8]) -> SaveOutcome {
    let (mut session, mut action) = SaveSession::new(dir.to_string(), name.to_string(), content.to_vec());
    loop {
        let event = match action {
            SaveAction::CheckExists { path } => SaveEvent::Existence(files.contains_key(&path) || path.ends_with('/')),
            SaveAction::CreateFile { path } => {
                if path.ends_with('/') {
                    SaveEvent::Created(Err(WriteError { kind: FsErrorKind::InvalidName, text: "Is a directory".to_string() }))
                } else {
                    files.insert(path, session.content.clone());
                    SaveEvent::Created(Ok(()))
                }
            },
            SaveAction::WritePreview { path, image } => {
                files.insert(path, image);
                SaveEvent::PreviewWritten(Ok(()))
            },
            SaveAction::Respond(o) => return o,
        };
        action = session.step(event);
    }
}

#[test]
fn save_new_image_writes_file_and_preview() {
    let mut files = HashMap::new();
    let jpeg = encoded(320, 240, ImageFormat::Jpeg);
    let r = run_save(&mut files, "up", "cat.jpg", &jpeg);
    assert_eq!(r, outcome(StatusCode::Success, "successfully"));
    assert_eq!(files["up/cat.jpg"], jpeg);
    let preview = image::load_from_memory_with_format(&files["up/previews/cat.jpg"], ImageFormat::Jpeg).unwrap();
    assert_eq!(preview.dimensions(), (100, 100));
}

#[test]
fn save_same_name_twice_conflicts() {
    let mut files = HashMap::new();
    let jpeg = encoded(40, 30, ImageFormat::Jpeg);
    assert_eq!(run_save(&mut files, "up", "cat.jpg", &jpeg).status, StatusCode::Success);
    let before = files.clone();
    let r = run_save(&mut files, "up", "cat.jpg", b"other bytes");
    assert_eq!(r, outcome(StatusCode::Conflict, "cat.jpg: file already exists"));
    assert_eq!(files, before);
}

#[test]
fn batch_with_middle_collision() {
    let mut files = HashMap::new();
    let png = encoded(8, 8, ImageFormat::Png);
    files.insert("up/file2.jpg".to_string(), vec![1, 2, 3]);
    let outs = vec![
        run_save(&mut files, "up", "file1.png", &png),
        run_save(&mut files, "up", "file2.jpg", &png),
        run_save(&mut files, "up", "file3.png", &png),
    ];
    assert_eq!(aggregate(&outs), outcome(StatusCode::Conflict, "file2.jpg: file already exists"));
    assert!(files.contains_key("up/file1.png"));
    assert!(files.contains_key("up/file3.png"));
    assert_eq!(files["up/file2.jpg"], vec![1, 2, 3]);
}

#[test]
fn empty_name_is_not_a_conflict() {
    let mut files = HashMap::new();
    let r = run_save(&mut files, "up", "", b"abc");
    assert_eq!(r, outcome(StatusCode::BadRequest, ": Wrong filename"));
    assert!(files.is_empty());
}

#[test]
fn session_starts_with_existence_check() {
    let (session, action) = SaveSession::new("d".to_string(), "a.png".to_string(), vec![]);
    assert_eq!(session.stage, SaveStage::Checking);
    match action {
        SaveAction::CheckExists { path } => assert_eq!(path, "d/a.png"),
        _ => panic!("expected an existence check"),
    }
}

#[test]
fn failed_write_ends_without_preview() {
    let (mut session, _) = SaveSession::new("d".to_string(), "a.png".to_string(), vec![1]);
    match session.step(SaveEvent::Existence(false)) {
        SaveAction::CreateFile { path } => assert_eq!(path, "d/a.png"),
        _ => panic!("expected a create"),
    }
    let err = WriteError { kind: FsErrorKind::PermissionDenied, text: "Permission denied (os error 13)".to_string() };
    match session.step(SaveEvent::Created(Err(err))) {
        SaveAction::Respond(o) => assert_eq!(o, outcome(StatusCode::InternalError, "Permission denied (os error 13)")),
        _ => panic!("expected a response"),
    }
    assert_eq!(session.stage, SaveStage::Finished);
}

#[test]
fn undecodable_content_fails_preview() {
    let (mut session, _) = SaveSession::new("d".to_string(), "a.png".to_string(), b"not an image".to_vec());
    session.step(SaveEvent::Existence(false));
    match session.step(SaveEvent::Created(Ok(()))) {
        SaveAction::Respond(o) => {
            assert_eq!(o.status, StatusCode::InternalError);
            assert!(o.message.starts_with("a.png: Couldn't save the preview. "));
        },
        _ => panic!("expected a response"),
    }
}

#[test]
fn preview_write_failure_and_success() {
    let png = encoded(5, 5, ImageFormat::Png);
    let (mut session, _) = SaveSession::new("d".to_string(), "a.png".to_string(), png);
    session.step(SaveEvent::Existence(false));
    match session.step(SaveEvent::Created(Ok(()))) {
        SaveAction::WritePreview { path, .. } => assert_eq!(path, "d/previews/a.png"),
        _ => panic!("expected a preview write"),
    }
    match session.step(SaveEvent::PreviewWritten(Err("No space left on device".to_string()))) {
        SaveAction::Respond(o) => assert_eq!(
            o,
            outcome(StatusCode::InternalError, "a.png: Couldn't save the preview. No space left on device")
        ),
        _ => panic!("expected a response"),
    }
}

#[test]
fn conflict_check_rules() {
    assert_eq!(check_conflict("a.png", true), Some(outcome(StatusCode::Conflict, "a.png: file already exists")));
    assert_eq!(check_conflict("a.png", false), None);
    assert_eq!(check_conflict("", true), None);
}

#[test]
fn write_error_classification() {
    let invalid = WriteError { kind: FsErrorKind::InvalidName, text: "Is a directory (os error 21)".to_string() };
    assert_eq!(classify_write_error("x/", invalid), outcome(StatusCode::BadRequest, "x/: Wrong filename"));
    let other = WriteError { kind: FsErrorKind::Other, text: "boom".to_string() };
    assert_eq!(classify_write_error("x", other), outcome(StatusCode::InternalError, "boom"));
    assert_eq!(preview_outcome("x", Ok(())), outcome(StatusCode::Success, "successfully"));
}

#[test]
fn render_preview_is_square_thumbnail() {
    let png = encoded(300, 20, ImageFormat::Png);
    let out = render_preview("d/p.png", "d/previews/p.png", &png).unwrap();
    assert_ne!(out, png);
    let img = image::load_from_memory_with_format(&out, ImageFormat::Png).unwrap();
    assert_eq!(img.dimensions(), (100, 100));
}

#[test]
fn render_preview_unknown_extension_fails() {
    let png = encoded(4, 4, ImageFormat::Png);
    assert!(render_preview("d/p", "d/previews/p", &png).is_err());
    assert!(render_preview("d/p.png", "d/previews/p.png", b"junk").is_err());
}
