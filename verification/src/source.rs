use vstd::prelude::*;
use vstd::string::*;

verus! {

/// The pattern that finds the first comment block of a text: everything
/// between the first `/*` and the `*/` that closes it.
pub open spec fn comment_block_pattern() -> Seq<char> {
    "(?s)/\\*(?P<config>.*?)\\*/"@
}

/// The name of the group that stands for the inside of the comment block.
pub open spec fn comment_block_group() -> Seq<char> {
    "config"@
}

/// The configuration of an effect that has no comment block: a single pass
/// with nothing set.
pub open spec fn default_config_source() -> Seq<char> {
    "[[pass]]"@
}

/// What the named group of a regular expression captures in its first match
/// in a text, as the crate `regex` finds it; none where the pattern is no
/// regular expression, where nothing matches and where the group takes no
/// part in the match.
pub uninterp spec fn first_capture(pattern: Seq<char>, group: Seq<char>, text: Seq<char>) -> Option<
    Seq<char>,
>;

/// Searches a text with `regex::Regex::captures` and gives the part that
/// the named group captured.
///
/// Nothing is claimed of the search but that its outcome depends on the
/// pattern, the group's name and the text alone.
#[verifier::external_body]
fn capture(pattern: &str, group: &str, text: &str) -> (captured: Option<String>)
    ensures
        match captured {
            Some(part) => first_capture(pattern@, group@, text@) == Some(part@),
            None => first_capture(pattern@, group@, text@) is None,
        },
{
    let expression = regex::Regex::new(pattern).ok()?;
    let found = expression.captures(text)?;
    found.name(group).map(|part| part.as_str().to_string())
}

/// The text of the configuration that a shader carries in a comment: the
/// inside of the shader's first comment block, or the default configuration
/// where the shader has no comment block.
pub fn config_source_of(captured: Option<String>) -> (source: String)
    ensures
        source@ == (match captured {
            Some(block) => block@,
            None => default_config_source(),
        }),
{
    match captured {
        Some(block) => block,
        None => String::from_str("[[pass]]"),
    }
}

/// Finds the text of the configuration that a shader carries in its first
/// comment block.
pub fn config_source_in_comment_block(src: &str) -> (source: String)
    ensures
        source@ == (match first_capture(comment_block_pattern(), comment_block_group(), src@) {
            Some(block) => block,
            None => default_config_source(),
        }),
{
    config_source_of(capture("(?s)/\\*(?P<config>.*?)\\*/", "config", src))
}

} // verus!
