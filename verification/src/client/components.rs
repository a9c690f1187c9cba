//! The keys that the client reacts to, and the field that takes typed text.

use vstd::prelude::*;
use vstd::string::*;
use vstd::utf8::encode_utf8;

verus! {

/// A key press, as far as the client tells keys apart.
#[derive(Clone, Copy, Debug, PartialEq, Eq, Structural)]
pub enum Key {
    Char(char),
    Backspace,
    Enter,
    Tab,
    BackTab,
    Esc,
    Up,
    Down,
    /// Any other key.
    Other,
}

/// A labelled field that takes typed text, shown as asterisks where it
/// holds a password.
#[derive(Debug)]
pub struct InputField {
    pub label: String,
    pub content: String,
    pub is_password: bool,
}

/// A field as plain values.
pub struct InputFieldView {
    pub label: Seq<char>,
    pub content: Seq<char>,
    pub is_password: bool,
}

impl View for InputField {
    type V = InputFieldView;

    open spec fn view(&self) -> InputFieldView {
        InputFieldView {
            label: self.label@,
            content: self.content@,
            is_password: self.is_password,
        }
    }
}

/// A field after a key press.
pub open spec fn field_typed(field: InputFieldView, key: Key) -> InputFieldView {
    InputFieldView { content: typed(field.content, key), ..field }
}

/// An empty field with the given label.
pub open spec fn empty_field(label: Seq<char>, is_password: bool) -> InputFieldView {
    InputFieldView { label, content: Seq::empty(), is_password }
}

/// What a page that is a form asks for after a key press.
#[derive(Clone, Copy, Debug, PartialEq, Eq, Structural)]
pub enum FormRequest {
    /// Nothing; the page stays.
    Nothing,
    /// Nothing; the page is done with.
    Leave,
    /// Send the form to the service.
    Submit,
}

/// The field after `field` among `count` fields; behind the last comes the
/// first.
pub open spec fn field_after(field: usize, count: usize) -> usize
    recommends
        count > 0,
{
    ((field + 1) % (count as int)) as usize
}

/// The field before `field` among `count` fields; before the first comes
/// the last.
pub open spec fn field_before(field: usize, count: usize) -> usize
    recommends
        count > 0,
{
    if field == 0 {
        (count - 1) as usize
    } else {
        (field - 1) as usize
    }
}

/// The field after `field` among `count` fields.
pub fn next_field(field: usize, count: usize) -> (next: usize)
    requires
        count > 0,
    ensures
        next == field_after(field, count),
        next < count,
{
    if field == usize::MAX {
        proof {
            vstd::arithmetic::div_mod::lemma_add_mod_noop(field as int, 1, count as int);
            vstd::arithmetic::div_mod::lemma_mod_twice(field as int, count as int);
            vstd::arithmetic::div_mod::lemma_add_mod_noop(
                field as int % count as int,
                1,
                count as int,
            );
        }
        ((field % count) + 1) % count
    } else {
        (field + 1) % count
    }
}

/// The field before `field` among `count` fields.
pub fn previous_field(field: usize, count: usize) -> (previous: usize)
    requires
        count > 0,
    ensures
        previous == field_before(field, count),
{
    if field == 0 {
        count - 1
    } else {
        field - 1
    }
}

/// The text of `count` asterisks.
pub open spec fn asterisks(count: nat) -> Seq<char> {
    Seq::new(count, |i: int| '*')
}

/// What a field with the given content shows: the content itself, or of a
/// password one asterisk for each byte of its UTF-8 form; and behind it a
/// bar where the field is active.
pub open spec fn shown_text(content: Seq<char>, is_password: bool, is_active: bool) -> Seq<char> {
    let body = if is_password {
        asterisks(encode_utf8(content).len())
    } else {
        content
    };
    if is_active {
        body.push('|')
    } else {
        body
    }
}

/// The content of a field after a key press: a character is added at the
/// end, backspace takes the last one away, other keys change nothing.
pub open spec fn typed(content: Seq<char>, key: Key) -> Seq<char> {
    match key {
        Key::Char(c) => content.push(c),
        Key::Backspace => if content.len() > 0 {
            content.drop_last()
        } else {
            content
        },
        _ => content,
    }
}

/// Applies a key press to a text.
pub fn type_into(content: &mut String, key: Key)
    ensures
        final(content)@ == typed(old(content)@, key),
{
    match key {
        Key::Char(c) => {
            content.push(c);
        },
        Key::Backspace => {
            let _ = content.pop();
        },
        _ => {},
    }
}

/// The text of `count` asterisks.
pub fn asterisk_text(count: usize) -> (stars: String)
    ensures
        stars@ == asterisks(count as nat),
{
    let mut stars = String::new();
    let mut i: usize = 0;
    proof {
        reveal_strlit("*");
    }
    while i < count
        invariant
            i <= count,
            stars@ =~= asterisks(i as nat),
            "*"@ =~= seq!['*'],
        decreases count - i,
    {
        stars.append("*");
        i += 1;
    }
    stars
}

impl InputField {
    /// An empty field with the given label.
    pub fn new(label: &str, is_password: bool) -> (field: InputField)
        ensures
            field@ == empty_field(label@, is_password),
    {
        InputField { label: String::from_str(label), content: String::new(), is_password }
    }

    /// Applies a key press to the content of the field.
    pub fn handle_input(&mut self, key: Key)
        ensures
            final(self)@ == field_typed(old(self)@, key),
    {
        type_into(&mut self.content, key);
    }

    /// What the field shows.
    pub fn display_content(&self, is_active: bool) -> (shown: String)
        ensures
            shown@ == shown_text(self.content@, self.is_password, is_active),
    {
        let mut shown = if self.is_password {
            asterisk_text(self.content.as_str().as_bytes().len())
        } else {
            self.content.clone()
        };
        if is_active {
            shown.push('|');
        }
        shown
    }
}

} // verus!
