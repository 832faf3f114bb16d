//! Accumulation of the fields of a submitted form, part by part, in the
//! order in which the parts arrive.
use vstd::prelude::*;
use vstd::string::*;
use vstd::utf8::{decode_utf8, valid_utf8};
use crate::text::same_str;

verus! {

/// What `str::to_lowercase` makes of a text.
pub uninterp spec fn lower_of(s: Seq<char>) -> Seq<char>;

/// Relies on `str::to_lowercase`: the result depends on the characters alone.
#[verifier::external_body]
fn lowercase(s: &str) -> (r: String)
    ensures
        r@ == lower_of(s@),
{
    s.to_lowercase()
}

/// Relies on `String::from_utf8`: it succeeds exactly on valid UTF-8, and
/// then holds the characters that the bytes encode.
#[verifier::external_body]
fn decode_utf8_bytes(bytes: Vec<u8>) -> (r: Option<String>)
    ensures
        r is Some <==> valid_utf8(bytes@),
        r is Some ==> r.unwrap()@ == decode_utf8(bytes@),
{
    String::from_utf8(bytes).ok()
}

/// The text that a scalar field's bytes hold: their decoding when they are
/// valid UTF-8, and nothing otherwise.
pub open spec fn text_or_empty(bytes: Seq<u8>) -> Seq<char> {
    if valid_utf8(bytes) {
        decode_utf8(bytes)
    } else {
        Seq::empty()
    }
}

/// What follows the last `.` of a file name; the whole name when it has none.
pub open spec fn after_last_dot(s: Seq<char>) -> Seq<char>
    decreases s.len(),
{
    if s.len() == 0 {
        s
    } else if s.last() == '.' {
        Seq::empty()
    } else {
        after_last_dot(s.drop_last()).push(s.last())
    }
}

/// The extension of a file name, lowercased.
pub open spec fn extension_of(filename: Seq<char>) -> Seq<char> {
    lower_of(after_last_dot(filename))
}

/// The text appended for an attachment: a marker naming the file, then the
/// text extracted from it.
pub open spec fn attachment_text(filename: Seq<char>, extracted: Seq<char>) -> Seq<char> {
    "\n[Adjunto: "@ + filename + "]\n"@ + extracted
}

/// The part of `filename` after its last `.`.
pub fn last_segment(filename: &str) -> (r: &str)
    ensures
        r@ == after_last_dot(filename@),
{
    let n = filename.unicode_len();
    let mut j: usize = n;
    assert(filename@.subrange(0, n as int) =~= filename@);
    assert(filename@.subrange(n as int, n as int) =~= Seq::<char>::empty());
    while j > 0 && filename.get_char(j - 1) != '.'
        invariant
            n == filename@.len(),
            j <= n,
            after_last_dot(filename@) == after_last_dot(filename@.subrange(0, j as int))
                + filename@.subrange(j as int, n as int),
        decreases j,
    {
        proof {
            let pre = filename@.subrange(0, j as int);
            assert(pre.drop_last() =~= filename@.subrange(0, j - 1));
            assert(filename@.subrange(j - 1, n as int) =~= seq![pre.last()]
                + filename@.subrange(j as int, n as int));
            assert(after_last_dot(filename@.subrange(0, j - 1)).push(pre.last())
                + filename@.subrange(j as int, n as int) =~= after_last_dot(
                filename@.subrange(0, j - 1),
            ) + filename@.subrange(j - 1, n as int));
        }
        j = j - 1;
    }
    proof {
        if j == 0 {
            assert(filename@.subrange(0, 0) =~= Seq::<char>::empty());
        }
        assert(after_last_dot(filename@) =~= filename@.subrange(j as int, n as int));
    }
    filename.substring_char(j, n)
}

/// The lowercased extension of a file name.
pub fn file_extension(filename: &str) -> (r: String)
    ensures
        r@ == extension_of(filename@),
{
    lowercase(last_segment(filename))
}

/// The fields gathered so far, as text.
pub struct FormView {
    pub experience: Seq<char>,
    pub context: Seq<char>,
    pub lang: Seq<char>,
}

/// The two text buckets and the language code of one submission.
pub struct FormInput {
    pub experience: String,
    pub context: String,
    pub lang: String,
}

impl View for FormInput {
    type V = FormView;

    open spec fn view(&self) -> FormView {
        FormView { experience: self.experience@, context: self.context@, lang: self.lang@ }
    }
}

/// How a part of the form is handled, given its file name if it has one.
pub enum PartKind {
    /// A file with a name: its extracted text joins a bucket.
    Attachment,
    /// A file part with an empty name: nothing is read from it.
    Skipped,
    /// A scalar text field.
    Field,
}

/// The form after a scalar field `name` with text `text`: `experience` and
/// `context` append to their bucket, `lang` replaces the language code, and
/// any other name changes nothing.
pub open spec fn with_text_field(v: FormView, name: Seq<char>, text: Seq<char>) -> FormView {
    if name == "experience"@ {
        FormView { experience: v.experience + text, ..v }
    } else if name == "context"@ {
        FormView { context: v.context + text, ..v }
    } else if name == "lang"@ {
        FormView { lang: text, ..v }
    } else {
        v
    }
}

/// The form after an attachment of field `name`: `experience_file` and
/// `context_file` append the marked text to their bucket, and any other name
/// changes nothing.
pub open spec fn with_attachment(v: FormView, name: Seq<char>, marked: Seq<char>) -> FormView {
    if name == "experience_file"@ {
        FormView { experience: v.experience + marked, ..v }
    } else if name == "context_file"@ {
        FormView { context: v.context + marked, ..v }
    } else {
        v
    }
}

/// How a part with the given file name is handled.
pub open spec fn part_kind(filename: Option<Seq<char>>) -> PartKind {
    match filename {
        None => PartKind::Field,
        Some(f) => if f.len() == 0 {
            PartKind::Skipped
        } else {
            PartKind::Attachment
        },
    }
}

/// Tells a scalar field from a file part, and a named file from an unnamed one.
pub fn classify_part(filename: Option<&str>) -> (r: PartKind)
    ensures
        r == part_kind(
            match filename {
                Some(f) => Some(f@),
                None => None,
            },
        ),
{
    match filename {
        None => PartKind::Field,
        Some(f) => if f.unicode_len() == 0 {
            PartKind::Skipped
        } else {
            PartKind::Attachment
        },
    }
}

impl FormInput {
    /// An empty submission, in Spanish until a `lang` field says otherwise.
    pub fn new() -> (r: FormInput)
        ensures
            r@.experience.len() == 0,
            r@.context.len() == 0,
            r@.lang == "es"@,
    {
        FormInput { experience: String::new(), context: String::new(), lang: "es".to_owned() }
    }

    /// Takes in a scalar field; bytes that are not UTF-8 count as empty text.
    pub fn add_text_field(&mut self, name: &str, value: Vec<u8>)
        ensures
            final(self)@ == with_text_field(old(self)@, name@, text_or_empty(value@)),
    {
        let text = match decode_utf8_bytes(value) {
            Some(t) => t,
            None => String::new(),
        };
        if same_str(name, "experience") {
            self.experience.append(text.as_str());
        } else if same_str(name, "context") {
            self.context.append(text.as_str());
        } else if same_str(name, "lang") {
            self.lang = text;
        }
    }

    /// Takes in the text extracted from an attached file, marked with the
    /// file's name.
    pub fn add_attachment(&mut self, name: &str, filename: &str, extracted: &str)
        ensures
            final(self)@ == with_attachment(old(self)@, name@, attachment_text(filename@, extracted@)),
    {
        let bucket_known = same_str(name, "experience_file") || same_str(name, "context_file");
        if bucket_known {
            let mut marked = String::from_str("\n[Adjunto: ");
            marked.append(filename);
            marked.append("]\n");
            marked.append(extracted);
            if same_str(name, "experience_file") {
                self.experience.append(marked.as_str());
            } else {
                self.context.append(marked.as_str());
            }
        }
    }
}

} // verus!
