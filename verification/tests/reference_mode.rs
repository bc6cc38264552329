use shareable::{ByReference, Share, ShareMode, Shareable, SharedBy};

#[derive(Clone)]
struct Foo;

impl SharedBy for Foo {
    type Mode = ByReference;
}

struct Note {
    text: String,
}

impl SharedBy for Note {
    type Mode = ByReference;
}

trait Named {
    fn name(&self) -> String;
}

impl Named for Note {
    fn name(&self) -> String {
        format!("note {}", self.text)
    }
}

impl SharedBy for dyn Named {
    type Mode = ByReference;
}

#[test]
fn reference() {
    // Ref.
    let _: &Foo = Share::new(&Foo).shared;
}

#[test]
fn reference_handle_reads_the_content() {
    let note = Note { text: String::from("hello") };
    let handle = Share::new(&note);
    assert_eq!(handle.text, "hello");
    assert_eq!(handle.text, note.text);
    assert_eq!(handle.text.len(), 5);
}

#[test]
fn reference_handle_points_at_the_value() {
    let note = Note { text: String::from("hello") };
    let handle = Share::new(&note);
    assert!(std::ptr::eq(handle.shared, &note));
    assert!(std::ptr::eq(&*handle, &note));
    assert!(std::ptr::eq(handle.text.as_ptr(), note.text.as_ptr()));
}

#[test]
fn reads_agree_and_leave_the_value_alone() {
    let note = Note { text: String::from("abc") };
    let one = Share::new(&note);
    let other = Share::new(&note);
    let first: &Note = &one;
    let second: &Note = &one;
    assert!(std::ptr::eq(first, second));
    assert_eq!(first.text, "abc");
    assert_eq!(other.text, "abc");
    assert_eq!(note.text, "abc");
}

#[test]
fn reference_handle_to_an_unsized_value() {
    let note = Note { text: String::from("x") };
    let named: &dyn Named = &note;
    let handle = Share::new(named);
    assert_eq!(handle.name(), "note x");
}

#[test]
fn reference_mode_shares_and_resolves() {
    let note = Note { text: String::from("abc") };
    let shared: &Note = <ByReference as ShareMode<Note>>::share(&note);
    assert!(std::ptr::eq(shared, &note));
    assert!(std::ptr::eq(<ByReference as ShareMode<Note>>::resolve(&shared), &note));
    let shared: &Note = note.share();
    assert!(std::ptr::eq(shared, &note));
    assert!(std::ptr::eq(<Note as Shareable>::resolve(&shared), &note));
}
