//! Allow-list sanitization of generated HTML before it reaches a browser.
use vstd::prelude::*;

verus! {

/// What ammonia's cleaner makes of `html` when it allows exactly the tags
/// `tags` and, on every allowed tag, exactly the attributes `generic_attrs`
/// (all other settings left at ammonia's defaults).
pub uninterp spec fn ammonia_cleaned(
    tags: Seq<Seq<char>>,
    generic_attrs: Seq<Seq<char>>,
    html: Seq<char>,
) -> Seq<char>;

/// The characters of each string of `s`.
pub open spec fn str_views(s: Seq<&str>) -> Seq<Seq<char>> {
    s.map_values(|t: &str| t@)
}

/// The tags that survive sanitization.
pub open spec fn allowed_tags() -> Seq<Seq<char>> {
    seq![
        "article"@, "section"@, "div"@, "h2"@, "h3"@, "p"@, "span"@, "strong"@,
        "em"@, "br"@, "blockquote"@, "footer"@, "cite"@, "ul"@, "li"@, "a"@,
    ]
}

/// The attributes that survive sanitization, on any allowed tag.
pub open spec fn allowed_attributes() -> Seq<Seq<char>> {
    seq!["class"@]
}

/// Relies on `ammonia::Builder::default`, `Builder::tags`,
/// `Builder::generic_attributes`, `Builder::clean` and the `Display` of the
/// cleaned `Document`: the text depends on the three arguments alone.
/// `clean` asserts that no tag of the default `clean_content_tags`
/// (`script`, `style`) is allowed, and that `rel` is not a generic attribute
/// while the default `link_rel` is set.
#[verifier::external_body]
fn ammonia_clean(tags: &Vec<&str>, generic_attrs: &Vec<&str>, html: &str) -> (r: String)
    requires
        !str_views(tags@).contains("script"@),
        !str_views(tags@).contains("style"@),
        !str_views(generic_attrs@).contains("rel"@),
    ensures
        r@ == ammonia_cleaned(str_views(tags@), str_views(generic_attrs@), html@),
{
    let mut builder = ammonia::Builder::default();
    builder.tags(tags.iter().copied().collect());
    builder.generic_attributes(generic_attrs.iter().copied().collect());
    builder.clean(html).to_string()
}

/// The allow-lists keep clear of what ammonia's cleaner refuses to allow:
/// the tags whose content it removes, and `rel` beside its own link policy.
proof fn lemma_allow_lists_accepted()
    ensures
        !allowed_tags().contains("script"@),
        !allowed_tags().contains("style"@),
        !allowed_attributes().contains("rel"@),
{
    broadcast use vstd::string::group_string_axioms;
    broadcast use vstd::seq_lib::lemma_seq_contains_after_push;
    broadcast use vstd::seq_lib::lemma_seq_empty_contains_nothing;
    reveal_strlit("script");
    reveal_strlit("class");
    reveal_strlit("rel");
    reveal_strlit("style");
    reveal_strlit("article");
    reveal_strlit("section");
    reveal_strlit("div");
    reveal_strlit("h2");
    reveal_strlit("h3");
    reveal_strlit("p");
    reveal_strlit("span");
    reveal_strlit("strong");
    reveal_strlit("em");
    reveal_strlit("br");
    reveal_strlit("blockquote");
    reveal_strlit("footer");
    reveal_strlit("cite");
    reveal_strlit("ul");
    reveal_strlit("li");
    reveal_strlit("a");
    assert("article"@.len() != "script"@.len());
    assert("section"@.len() != "script"@.len());
    assert("div"@.len() != "script"@.len());
    assert("h2"@.len() != "script"@.len());
    assert("h3"@.len() != "script"@.len());
    assert("p"@.len() != "script"@.len());
    assert("span"@.len() != "script"@.len());
    assert("strong"@[1] != "script"@[1]);
    assert("em"@.len() != "script"@.len());
    assert("br"@.len() != "script"@.len());
    assert("blockquote"@.len() != "script"@.len());
    assert("footer"@[0] != "script"@[0]);
    assert("cite"@.len() != "script"@.len());
    assert("ul"@.len() != "script"@.len());
    assert("li"@.len() != "script"@.len());
    assert("a"@.len() != "script"@.len());
    assert("article"@.len() != "style"@.len());
    assert("section"@.len() != "style"@.len());
    assert("div"@.len() != "style"@.len());
    assert("h2"@.len() != "style"@.len());
    assert("h3"@.len() != "style"@.len());
    assert("p"@.len() != "style"@.len());
    assert("span"@.len() != "style"@.len());
    assert("strong"@.len() != "style"@.len());
    assert("em"@.len() != "style"@.len());
    assert("br"@.len() != "style"@.len());
    assert("blockquote"@.len() != "style"@.len());
    assert("footer"@.len() != "style"@.len());
    assert("cite"@.len() != "style"@.len());
    assert("ul"@.len() != "style"@.len());
    assert("li"@.len() != "style"@.len());
    assert("a"@.len() != "style"@.len());
    assert(!allowed_tags().contains("script"@));
    assert(!allowed_tags().contains("style"@));
    assert("class"@.len() != "rel"@.len());
    assert(!allowed_attributes().contains("rel"@));
}

/// Constrains generated HTML to the allowed tags, with `class` as the only
/// attribute kept on them.
pub fn sanitize_ai_html(html: &str) -> (r: String)
    ensures
        r@ == ammonia_cleaned(allowed_tags(), allowed_attributes(), html@),
{
    let tags: Vec<&str> = vec![
        "article", "section", "div", "h2", "h3", "p", "span", "strong",
        "em", "br", "blockquote", "footer", "cite", "ul", "li", "a",
    ];
    let attrs: Vec<&str> = vec!["class"];
    proof {
        assert(str_views(tags@) =~= allowed_tags());
        assert(str_views(attrs@) =~= allowed_attributes());
        lemma_allow_lists_accepted();
    }
    ammonia_clean(&tags, &attrs, html)
}

} // verus!
