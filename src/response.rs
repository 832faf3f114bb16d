//! The envelope that a text-generation endpoint answers with, and the
//! search for the first textual output in it.
use vstd::prelude::*;

verus! {

/// One part of a message item: a type tag and, for text parts, the text.
pub struct ContentPart {
    pub part_type: String,
    pub text: Option<String>,
}

/// One output item: a type tag and, for messages, a sequence of parts.
pub struct OutputItem {
    pub item_type: String,
    pub content: Option<Vec<ContentPart>>,
}

/// The whole response: output items in document order.
pub struct ResponsesResponse {
    pub output: Vec<OutputItem>,
}

/// The text of an optional string, as characters.
pub open spec fn opt_text(t: Option<String>) -> Option<Seq<char>> {
    match t {
        Some(s) => Some(s@),
        None => None,
    }
}

/// The first part tagged `output_text` among `parts`, if any: `Some` of its
/// (possibly absent) text.
pub open spec fn first_text_part(parts: Seq<ContentPart>) -> Option<Option<Seq<char>>>
    decreases parts.len(),
{
    if parts.len() == 0 {
        None
    } else if parts[0].part_type@ == "output_text"@ {
        Some(opt_text(parts[0].text))
    } else {
        first_text_part(parts.drop_first())
    }
}

/// The parts that an item contributes to the search: those of a message
/// item that has content, none otherwise.
pub open spec fn searched_parts(item: OutputItem) -> Seq<ContentPart> {
    if item.item_type@ == "message"@ && item.content is Some {
        item.content.unwrap()@
    } else {
        Seq::empty()
    }
}

/// The first `output_text` part over all message items, in document order.
pub open spec fn first_output_text(items: Seq<OutputItem>) -> Option<Option<Seq<char>>>
    decreases items.len(),
{
    if items.len() == 0 {
        None
    } else {
        match first_text_part(searched_parts(items[0])) {
            Some(t) => Some(t),
            None => first_output_text(items.drop_first()),
        }
    }
}

/// What `extract_output_text` returns for a response whose items are `items`.
pub open spec fn output_text_of(items: Seq<OutputItem>) -> Option<Seq<char>> {
    match first_output_text(items) {
        Some(t) => t,
        None => None,
    }
}

fn same_text(a: &String, b: &str) -> (r: bool)
    ensures
        r == (a@ == b@),
{
    let owned = b.to_owned();
    *a == owned
}

fn first_text_part_exec(parts: &Vec<ContentPart>) -> (r: Option<Option<String>>)
    ensures
        match first_text_part(parts@) {
            Some(t) => r is Some && opt_text(r.unwrap()) == t,
            None => r is None,
        },
{
    let n = parts.len();
    let mut i: usize = 0;
    assert(parts@.subrange(0, n as int) =~= parts@);
    while i < n
        invariant
            n == parts@.len(),
            i <= n,
            first_text_part(parts@) == first_text_part(parts@.subrange(i as int, n as int)),
        decreases n - i,
    {
        proof {
            let rest = parts@.subrange(i as int, n as int);
            assert(rest.drop_first() =~= parts@.subrange(i + 1, n as int));
        }
        if same_text(&parts[i].part_type, "output_text") {
            return Some(parts[i].text.clone());
        }
        i = i + 1;
    }
    proof {
        assert(parts@.subrange(n as int, n as int).len() == 0);
    }
    None
}

/// The text of the first part tagged `output_text` inside an item tagged
/// `message`, scanning items and parts in order; `None` when there is no
/// such part, or when that part carries no text.
pub fn extract_output_text(resp: &ResponsesResponse) -> (r: Option<String>)
    ensures
        opt_text(r) == output_text_of(resp.output@),
{
    let n = resp.output.len();
    let mut i: usize = 0;
    assert(resp.output@.subrange(0, n as int) =~= resp.output@);
    while i < n
        invariant
            n == resp.output@.len(),
            i <= n,
            first_output_text(resp.output@) == first_output_text(
                resp.output@.subrange(i as int, n as int),
            ),
        decreases n - i,
    {
        proof {
            let rest = resp.output@.subrange(i as int, n as int);
            assert(rest.drop_first() =~= resp.output@.subrange(i + 1, n as int));
        }
        let item = &resp.output[i];
        if same_text(&item.item_type, "message") {
            if let Some(parts) = &item.content {
                let found = first_text_part_exec(parts);
                if let Some(t) = found {
                    return t;
                }
            }
        }
        i = i + 1;
    }
    proof {
        assert(resp.output@.subrange(n as int, n as int).len() == 0);
    }
    None
}

} // verus!
