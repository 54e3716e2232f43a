//! Anchors: the names by which the document's headings and entries are linked
//! to, and the registry of those that a rendering pass has made.

use vstd::prelude::*;
use vstd::string::*;
use heck::KebabCase;

verus! {

/// The lower-case, hyphenated form of a name: what `heck` computes as its
/// kebab case.
pub uninterp spec fn kebab_form(name: Seq<char>) -> Seq<char>;

/// Calls `heck::KebabCase::to_kebab_case` on the name. The result depends on
/// the characters of the name alone; nothing else is claimed of it.
#[verifier::external_body]
pub(crate) fn kebab_case(name: &str) -> (out: String)
    ensures
        out@ == kebab_form(name@),
{
    name.to_kebab_case()
}

/// The anchor of a member (a field, a case, a flag, a parameter) of a named
/// item.
pub open spec fn member_anchor(owner: Seq<char>, member: Seq<char>) -> Seq<char> {
    kebab_form(owner) + "."@ + kebab_form(member)
}

/// The key under which the registry holds a member of a named item.
pub open spec fn member_key(owner: Seq<char>, member: Seq<char>) -> Seq<char> {
    owner + "::"@ + member
}

/// What a link to an anchor points at.
pub open spec fn link_target(anchor: Seq<char>) -> Seq<char> {
    "#"@ + anchor
}

/// The HTML tag that places an anchor in the text and links it to itself.
pub open spec fn anchor_tag(anchor: Seq<char>) -> Seq<char> {
    "<a href=\"#"@ + anchor + "\" name=\""@ + anchor + "\"></a>"@
}

/// A link to the section of a named type: its name as the visible text, its
/// anchor as the target.
pub open spec fn link_text(name: Seq<char>) -> Seq<char> {
    "[`"@ + name + "`]("@ + link_target(kebab_form(name)) + ")"@
}

/// How the list entry of a member begins: its anchor, then its name linked
/// to that anchor.
pub open spec fn member_head(owner: Seq<char>, member: Seq<char>) -> Seq<char> {
    "- "@ + anchor_tag(member_anchor(owner, member)) + " [`"@ + member + "`]("@ + link_target(
        member_anchor(owner, member),
    ) + ")"@
}

/// One entry of the registry: a logical key and the link target made for it.
#[derive(Clone, Debug, PartialEq, Eq)]
pub struct Anchor {
    pub key: String,
    pub target: String,
}

impl View for Anchor {
    type V = (Seq<char>, Seq<char>);

    open spec fn view(&self) -> (Seq<char>, Seq<char>) {
        (self.key@, self.target@)
    }
}

/// The entries of a registry as pairs of character sequences.
pub open spec fn entries_view(entries: Seq<Anchor>) -> Seq<(Seq<char>, Seq<char>)> {
    entries.map_values(|a: Anchor| a@)
}

/// The registry entry of a named item.
pub open spec fn item_entry(name: Seq<char>) -> (Seq<char>, Seq<char>) {
    (name, link_target(kebab_form(name)))
}

/// The registry entry of a member of a named item.
pub open spec fn member_entry(owner: Seq<char>, member: Seq<char>) -> (Seq<char>, Seq<char>) {
    (member_key(owner, member), link_target(member_anchor(owner, member)))
}

/// Appends the tag of `anchor`.
pub(crate) fn push_anchor_tag(out: &mut String, anchor: &str)
    ensures
        final(out)@ == old(out)@ + anchor_tag(anchor@),
{
    out.append("<a href=\"#");
    out.append(anchor);
    out.append("\" name=\"");
    out.append(anchor);
    out.append("\"></a>");
    assert(out@ =~= old(out)@ + anchor_tag(anchor@));
}

/// Computes the anchor of a member.
pub(crate) fn make_member_anchor(owner: &str, member: &str) -> (anchor: String)
    ensures
        anchor@ == member_anchor(owner@, member@),
{
    let mut anchor = kebab_case(owner);
    anchor.append(".");
    let m = kebab_case(member);
    anchor.append(m.as_str());
    anchor
}

/// Appends a link to the section of the type named `name`.
pub(crate) fn push_link(out: &mut String, name: &str)
    ensures
        final(out)@ == old(out)@ + link_text(name@),
{
    out.append("[`");
    out.append(name);
    out.append("`](");
    out.append("#");
    let k = kebab_case(name);
    out.append(k.as_str());
    out.append(")");
    assert(out@ =~= old(out)@ + link_text(name@));
}

/// Appends the beginning of a member's list entry and records the member.
pub(crate) fn push_member_head(
    out: &mut String,
    hrefs: &mut Vec<Anchor>,
    owner: &str,
    member: &str,
)
    ensures
        final(out)@ == old(out)@ + member_head(owner@, member@),
        entries_view(final(hrefs)@) == entries_view(old(hrefs)@).push(member_entry(owner@, member@)),
{
    let anchor = make_member_anchor(owner, member);
    out.append("- ");
    push_anchor_tag(out, anchor.as_str());
    out.append(" [`");
    out.append(member);
    out.append("`](");
    out.append("#");
    out.append(anchor.as_str());
    out.append(")");
    assert(out@ =~= old(out)@ + member_head(owner@, member@));
    let mut key = String::from_str(owner);
    key.append("::");
    key.append(member);
    let mut target = String::from_str("#");
    target.append(anchor.as_str());
    hrefs.push(Anchor { key, target });
    assert(entries_view(hrefs@) =~= entries_view(old(hrefs)@).push(member_entry(owner@, member@)));
}

/// Records a named item.
pub(crate) fn record_item(hrefs: &mut Vec<Anchor>, name: &str)
    ensures
        entries_view(final(hrefs)@) == entries_view(old(hrefs)@).push(item_entry(name@)),
{
    let key = String::from_str(name);
    let mut target = String::from_str("#");
    let k = kebab_case(name);
    target.append(k.as_str());
    hrefs.push(Anchor { key, target });
    assert(entries_view(hrefs@) =~= entries_view(old(hrefs)@).push(item_entry(name@)));
}

/// The registry as a mapping from keys to targets: where a key was recorded
/// more than once, the entry made last stands.
pub open spec fn as_map(entries: Seq<(Seq<char>, Seq<char>)>) -> Map<Seq<char>, Seq<char>>
    decreases entries.len(),
{
    if entries.len() == 0 {
        Map::empty()
    } else {
        as_map(entries.drop_last()).insert(entries.last().0, entries.last().1)
    }
}

/// A key that no entry has is not in the mapping.
proof fn lemma_as_map_without(entries: Seq<(Seq<char>, Seq<char>)>, key: Seq<char>)
    requires
        forall|j: int| 0 <= j < entries.len() ==> (#[trigger] entries[j]).0 != key,
    ensures
        !as_map(entries).contains_key(key),
    decreases entries.len(),
{
    if entries.len() > 0 {
        let rest = entries.drop_last();
        assert forall|j: int| 0 <= j < rest.len() implies (#[trigger] rest[j]).0 != key by {
            assert(rest[j] == entries[j]);
        }
        lemma_as_map_without(rest, key);
        assert(entries.last() == entries[entries.len() - 1]);
    }
}

/// The last entry with a key gives the target that the mapping has for it.
proof fn lemma_as_map_last(entries: Seq<(Seq<char>, Seq<char>)>, key: Seq<char>, i: int)
    requires
        0 <= i < entries.len(),
        entries[i].0 == key,
        forall|j: int| i < j < entries.len() ==> (#[trigger] entries[j]).0 != key,
    ensures
        as_map(entries).contains_key(key),
        as_map(entries)[key] == entries[i].1,
    decreases entries.len(),
{
    let rest = entries.drop_last();
    assert(entries.last() == entries[entries.len() - 1]);
    if i < entries.len() - 1 {
        assert forall|j: int| i < j < rest.len() implies (#[trigger] rest[j]).0 != key by {
            assert(rest[j] == entries[j]);
        }
        assert(rest[i] == entries[i]);
        lemma_as_map_last(rest, key, i);
    }
}

/// Looks a key up in the registry: the target that was recorded for it last,
/// if any was.
pub fn lookup<'a>(entries: &'a Vec<Anchor>, key: &str) -> (found: Option<&'a String>)
    ensures
        match found {
            Some(target) => as_map(entries_view(entries@)).contains_key(key@) && as_map(
                entries_view(entries@),
            )[key@] == target@,
            None => !as_map(entries_view(entries@)).contains_key(key@),
        },
{
    let ghost view = entries_view(entries@);
    let wanted = String::from_str(key);
    let mut i: usize = entries.len();
    while i > 0
        invariant
            i <= entries.len(),
            wanted@ == key@,
            view == entries_view(entries@),
            forall|j: int| i <= j < entries.len() ==> (#[trigger] view[j]).0 != key@,
        decreases i,
    {
        i = i - 1;
        assert(view[i as int] == entries[i as int]@);
        if entries[i].key == wanted {
            proof {
                lemma_as_map_last(view, key@, i as int);
            }
            return Some(&entries[i].target);
        }
    }
    proof {
        lemma_as_map_without(view, key@);
    }
    None
}

} // verus!
