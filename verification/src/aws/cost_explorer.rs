//! The options of a cost-and-usage query, read from the command line.
use crate::text::{ascii_lower, owned, str_equals, to_ascii_lowercase};
use vstd::prelude::*;

verus! {

/// The time granularity of a cost report.
#[derive(Debug, Clone, Copy, PartialEq, Eq, Structural)]
pub enum Granularity {
    Daily,
    Hourly,
    Monthly,
}

/// The granularity named by `s`, read case-insensitively (ASCII); `None` for
/// any other name, which the service's enum cannot represent.
pub open spec fn granularity_spec(s: Seq<char>) -> Option<Granularity> {
    let l = ascii_lower(s);
    if l == "daily"@ {
        Some(Granularity::Daily)
    } else if l == "hourly"@ {
        Some(Granularity::Hourly)
    } else if l == "monthly"@ {
        Some(Granularity::Monthly)
    } else {
        None
    }
}

/// Reads a granularity name.
pub fn parse_granularity(s: &str) -> (g: Option<Granularity>)
    ensures
        g == granularity_spec(s@),
{
    let l = to_ascii_lowercase(s);
    if str_equals(l.as_str(), "daily") {
        Some(Granularity::Daily)
    } else if str_equals(l.as_str(), "hourly") {
        Some(Granularity::Hourly)
    } else if str_equals(l.as_str(), "monthly") {
        Some(Granularity::Monthly)
    } else {
        None
    }
}

/// The kind of key a report is grouped by.
#[derive(Debug, Clone, Copy, PartialEq, Eq, Structural)]
pub enum GroupKind {
    Dimension,
    Tag,
    CostCategory,
}

/// How a report is grouped: a key of some kind, or neither where the kind is
/// not recognised.
pub struct GroupBy {
    pub key: Option<String>,
    pub kind: Option<GroupKind>,
}

/// The group kind named by `s`, read case-insensitively (ASCII).
pub open spec fn group_kind_spec(s: Seq<char>) -> Option<GroupKind> {
    let l = ascii_lower(s);
    if l == "dimension"@ {
        Some(GroupKind::Dimension)
    } else if l == "tag"@ {
        Some(GroupKind::Tag)
    } else if l == "costcategory"@ {
        Some(GroupKind::CostCategory)
    } else {
        None
    }
}

/// The grouping for a group type and key: a recognised type groups by the key,
/// any other type leaves the grouping empty.
pub fn group_by(group_by_type: &str, group_by_key: &str) -> (g: GroupBy)
    ensures
        g.kind == group_kind_spec(group_by_type@),
        g.kind is Some ==> (g.key matches Some(k) && k@ == group_by_key@),
        g.kind is None ==> g.key is None,
{
    let l = to_ascii_lowercase(group_by_type);
    let kind = if str_equals(l.as_str(), "dimension") {
        Some(GroupKind::Dimension)
    } else if str_equals(l.as_str(), "tag") {
        Some(GroupKind::Tag)
    } else if str_equals(l.as_str(), "costcategory") {
        Some(GroupKind::CostCategory)
    } else {
        None
    };
    match kind {
        Some(k) => GroupBy { key: Some(owned(group_by_key)), kind: Some(k) },
        None => GroupBy { key: None, kind: None },
    }
}

/// Names are read without regard to ASCII case.
pub proof fn lemma_granularity_case_insensitive(s: Seq<char>)
    ensures
        granularity_spec(ascii_lower(s)) == granularity_spec(s),
        group_kind_spec(ascii_lower(s)) == group_kind_spec(s),
{
    assert(ascii_lower(ascii_lower(s)) =~= ascii_lower(s));
}

/// Each name reads as its namesake, whatever its ASCII case: a granularity
/// of `daily`, `hourly` or `monthly` is that period, and a group type of
/// `dimension`, `tag` or `costcategory` groups by that kind of key; any other
/// name is recognised as neither.
pub proof fn lemma_names_read_as_namesakes(s: Seq<char>)
    ensures
        ascii_lower(s) == "daily"@ ==> granularity_spec(s) == Some(Granularity::Daily),
        ascii_lower(s) == "hourly"@ ==> granularity_spec(s) == Some(Granularity::Hourly),
        ascii_lower(s) == "monthly"@ ==> granularity_spec(s) == Some(Granularity::Monthly),
        ascii_lower(s) != "daily"@ && ascii_lower(s) != "hourly"@ && ascii_lower(s)
            != "monthly"@ ==> granularity_spec(s) is None,
        ascii_lower(s) == "dimension"@ ==> group_kind_spec(s) == Some(GroupKind::Dimension),
        ascii_lower(s) == "tag"@ ==> group_kind_spec(s) == Some(GroupKind::Tag),
        ascii_lower(s) == "costcategory"@ ==> group_kind_spec(s) == Some(
            GroupKind::CostCategory,
        ),
        ascii_lower(s) != "dimension"@ && ascii_lower(s) != "tag"@ && ascii_lower(s)
            != "costcategory"@ ==> group_kind_spec(s) is None,
{
    reveal_strlit("daily");
    reveal_strlit("hourly");
    reveal_strlit("monthly");
    reveal_strlit("dimension");
    reveal_strlit("tag");
    reveal_strlit("costcategory");
    assert("daily"@.len() == 5 && "hourly"@.len() == 6 && "monthly"@.len() == 7);
    assert("dimension"@.len() == 9 && "tag"@.len() == 3 && "costcategory"@.len() == 12);
}

} // verus!
