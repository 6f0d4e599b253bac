use std::io;

use umbra::components::{
    Border, BorderStyle, Direction, ElementBundle, ElementMode, ElementStyleBundle, Focusable,
    HorizontalAlign, Interactable, Margin, Offset, Padding, Sizing, Title, VerticalAlign,
    Visibility, Visible,
};
use umbra::draw::DrawBuffer;
use umbra::error::{BError, UError};

#[test]
fn component_defaults() {
    assert_eq!(BorderStyle::default(), BorderStyle::NoBorder);
    assert_eq!(ElementMode::default(), ElementMode::Monocle);
    assert_eq!(Visibility::default(), Visibility::Visible);
    assert_eq!(VerticalAlign::default(), VerticalAlign::Center);
    assert_eq!(HorizontalAlign::default(), HorizontalAlign::Center);
    assert_eq!(Offset::default(), Offset::Zero);
    assert_eq!(Sizing::default(), Sizing::Dynamic);
    assert_eq!(Direction::default(), Direction { t: 0, b: 0, l: 0, r: 0 });
    assert_eq!(Visible::default(), Visible(Visibility::Visible));
    assert_eq!(umbra::components::Size::default(), umbra::components::Size(Sizing::Dynamic));
    assert_eq!(Border::default(), Border(BorderStyle::NoBorder));
    assert_eq!(Interactable::default(), Interactable);
    assert_eq!(Focusable::default(), Focusable);
}

#[test]
fn bundle_defaults() {
    let style = ElementStyleBundle::default();
    assert_eq!(style.border, Border(BorderStyle::NoBorder));
    assert_eq!(style.padding, Padding { t: 0, b: 0, l: 0, r: 0 });
    assert_eq!(style.margin, Margin { t: 0, b: 0, l: 0, r: 0 });
    let element = ElementBundle::default();
    assert_eq!(element.visible, Visible(Visibility::Visible));
    assert_eq!(element.mode, ElementMode::Monocle);
    assert_eq!(element.offset, Offset::Zero);
    assert_eq!(element.size, umbra::components::Size(Sizing::Dynamic));
}

#[test]
fn title_keeps_its_text() {
    let title = Title::new(String::from("Document #1"));
    assert_eq!(title.as_str(), "Document #1");
    assert_eq!(Title::new(String::new()).as_str(), "");
    assert_eq!(&*title, "Document #1");
    assert_eq!(title.len(), 11);
}

#[test]
fn draw_buffer_keeps_its_text() {
    assert_eq!(DrawBuffer::new("abc").as_str(), "abc");
    assert_eq!(DrawBuffer::from("xyz").as_str(), "xyz");
}

#[test]
fn device_errors_become_internal_errors() {
    let err = BError::from(io::Error::new(io::ErrorKind::BrokenPipe, "closed"));
    match err {
        BError::Internal(inner) => assert_eq!(inner.kind(), io::ErrorKind::BrokenPipe),
        other => panic!("{:?}", other),
    }
}

#[test]
fn backend_errors_become_session_errors() {
    assert!(matches!(UError::from(BError::NoBackend), UError::Backend(BError::NoBackend)));
    assert!(matches!(UError::from(BError::OutOfBounds), UError::Backend(BError::OutOfBounds)));
}
