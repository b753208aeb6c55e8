//! The INI documents of `configparser`, as far as this crate uses them: an
//! `Ini` made by `Ini::new`, filled by `set` or parsed by `read`, and read
//! back by `get`.
use crate::text::{all_ascii, ascii_lower};
use configparser::ini::Ini;
use vstd::prelude::*;

verus! {

#[verifier::external_type_specification]
#[verifier::external_body]
pub struct ExIni(Ini);

/// What an `Ini` holds: its sections, each a map from key to optional value.
pub uninterp spec fn ini_sections(ini: Ini) -> Map<Seq<char>, Map<Seq<char>, Option<Seq<char>>>>;

/// The `Ini` keeps the options that `Ini::new` sets: section and key names are
/// folded to lowercase, `default` is the default section, `=` and `:` delimit,
/// `;` and `#` start comments, and a missing key is not looked up in the
/// default section.
pub uninterp spec fn ini_default_options(ini: Ini) -> bool;

/// What `str::to_lowercase` returns: the Unicode lowercase mapping of every
/// character.
pub uninterp spec fn unicode_lowercase(s: Seq<char>) -> Seq<char>;

/// What `Ini::read` parses a text into under the options of `Ini::new`;
/// `None` where it reports an error.
pub uninterp spec fn ini_parse(text: Seq<char>) -> Option<
    Map<Seq<char>, Map<Seq<char>, Option<Seq<char>>>>,
>;

/// The name under which a case-insensitive `Ini` files a section or key:
/// `configparser` keeps a name of lowercase ASCII as it is and lowercases any
/// other with `str::to_lowercase`, which maps ASCII as ASCII lowercasing does.
pub open spec fn fold_case(s: Seq<char>) -> Seq<char> {
    if all_ascii(s) {
        ascii_lower(s)
    } else {
        unicode_lowercase(s)
    }
}

/// The view of an optional string.
pub open spec fn opt_view(o: Option<String>) -> Option<Seq<char>> {
    match o {
        Some(s) => Some(s@),
        None => None,
    }
}

/// The sections after `key` of `section` is set to `value`; the section is
/// created when missing.
pub open spec fn ini_set_spec(
    m: Map<Seq<char>, Map<Seq<char>, Option<Seq<char>>>>,
    section: Seq<char>,
    key: Seq<char>,
    value: Option<Seq<char>>,
) -> Map<Seq<char>, Map<Seq<char>, Option<Seq<char>>>> {
    let sec = if m.contains_key(section) {
        m[section]
    } else {
        Map::empty()
    };
    m.insert(section, sec.insert(key, value))
}

/// The value of `key` in `section`, `None` where either is missing or the key
/// has no value.
pub open spec fn ini_lookup(
    m: Map<Seq<char>, Map<Seq<char>, Option<Seq<char>>>>,
    section: Seq<char>,
    key: Seq<char>,
) -> Option<Seq<char>> {
    if m.contains_key(section) && m[section].contains_key(key) {
        m[section][key]
    } else {
        None
    }
}

/// `str::to_lowercase`: the Unicode lowercase of `s`, which for ASCII text is
/// its ASCII lowercase.
#[verifier::external_body]
pub(crate) fn to_lowercase(s: &str) -> (r: String)
    ensures
        r@ == unicode_lowercase(s@),
        all_ascii(s@) ==> r@ == ascii_lower(s@),
{
    s.to_lowercase()
}

/// `Ini::new`: an empty document with the default options.
#[verifier::external_body]
pub(crate) fn ini_new() -> (doc: Ini)
    ensures
        ini_sections(doc).is_empty(),
        ini_default_options(doc),
{
    Ini::new()
}

/// `Ini::set`: files `value` under the case-folded `section` and `key`,
/// creating the section when missing; the options stay.
#[verifier::external_body]
pub(crate) fn ini_set(ini: &mut Ini, section: &str, key: &str, value: Option<String>)
    ensures
        ini_default_options(*final(ini)) == ini_default_options(*old(ini)),
        ini_default_options(*old(ini)) ==> ini_sections(*final(ini)) == ini_set_spec(
            ini_sections(*old(ini)),
            fold_case(section@),
            fold_case(key@),
            opt_view(value),
        ),
{
    ini.set(section, key, value);
}

/// `Ini::get`: the value under the case-folded `section` and `key`.
#[verifier::external_body]
pub(crate) fn ini_get(ini: &Ini, section: &str, key: &str) -> (r: Option<String>)
    ensures
        ini_default_options(*ini) ==> opt_view(r) == ini_lookup(
            ini_sections(*ini),
            fold_case(section@),
            fold_case(key@),
        ),
{
    ini.get(section, key)
}

/// `Ini::read`: parses `text` and, when that succeeds, replaces the sections
/// with what it parsed; on an error the sections stay. An empty text has no
/// lines, so it parses into no sections.
#[verifier::external_body]
pub(crate) fn ini_read(ini: &mut Ini, text: String) -> (ok: bool)
    ensures
        ini_default_options(*final(ini)) == ini_default_options(*old(ini)),
        ini_default_options(*old(ini)) ==> ok == (ini_parse(text@) is Some),
        ini_default_options(*old(ini)) && ok ==> ini_sections(*final(ini)) == ini_parse(
            text@,
        )->0,
        !ok ==> ini_sections(*final(ini)) == ini_sections(*old(ini)),
        text@.len() == 0 ==> ok && ini_sections(*final(ini)).is_empty(),
{
    ini.read(text).is_ok()
}

/// Whether the document has a section filed under exactly `name`, as
/// `contains_key` on the map that `Ini::load` returns decides it.
#[verifier::external_body]
pub(crate) fn ini_has_section(ini: &Ini, name: &str) -> (r: bool)
    ensures
        r == ini_sections(*ini).contains_key(name@),
{
    ini.get_map_ref().contains_key(name)
}

/// The entries of section `name`, filed under exactly that name, as iterating
/// the section's map hands them out: each key once with its value, in the
/// map's own order, which the contract leaves open; `None` where there is no
/// such section.
#[verifier::external_body]
pub(crate) fn ini_section_entries(ini: &Ini, name: &str) -> (r: Option<
    Vec<(String, Option<String>)>,
>)
    ensures
        r is Some <==> ini_sections(*ini).contains_key(name@),
        r matches Some(v) ==> v@.len() == ini_sections(*ini)[name@].dom().len(),
        r matches Some(v) ==> forall|i: int|
            0 <= i < v@.len() ==> #[trigger] ini_sections(*ini)[name@].contains_key(v@[i].0@)
                && ini_sections(*ini)[name@][v@[i].0@] == opt_view(v@[i].1),
        r matches Some(v) ==> forall|i: int, j: int|
            0 <= i < j < v@.len() ==> #[trigger] v@[i].0@ != #[trigger] v@[j].0@,
{
    ini.get_map_ref().get(name).map(|m| m.iter().map(|(k, v)| (k.clone(), v.clone())).collect())
}

} // verus!
