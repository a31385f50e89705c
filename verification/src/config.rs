//! Command-line configuration extensions.
//!
//! Most configuration is done via config files; a command-line extension of
//! the form `<SECTION>.<KEY>=<VALUE>` overrides or extends one entry of the
//! two-level configuration table.

use vstd::prelude::*;
use vstd::string::*;

verus! {

/// A scalar configuration value.
#[derive(Clone, PartialEq, Debug)]
pub enum TomlValue {
    Integer(i64),
    Boolean(bool),
    Str(String),
}

/// Spec-level model of a scalar configuration value.
pub enum TomlValueModel {
    Integer(int),
    Boolean(bool),
    Str(Seq<char>),
}

impl View for TomlValue {
    type V = TomlValueModel;

    open spec fn view(&self) -> TomlValueModel {
        match self {
            TomlValue::Integer(v) => TomlValueModel::Integer(*v as int),
            TomlValue::Boolean(b) => TomlValueModel::Boolean(*b),
            TomlValue::Str(s) => TomlValueModel::Str(s@),
        }
    }
}

/// Whether `c` is a decimal digit.
pub open spec fn spec_is_digit(c: char) -> bool {
    ('0' as u32) <= (c as u32) && (c as u32) <= ('9' as u32)
}

/// Whether every element of `s` is a decimal digit.
pub open spec fn spec_all_digits(s: Seq<char>) -> bool {
    forall|k: int| 0 <= k < s.len() ==> spec_is_digit(#[trigger] s[k])
}

/// The value of a sequence of decimal digits, most significant first.
pub open spec fn spec_digits_val(s: Seq<char>) -> int
    decreases s.len(),
{
    if s.len() == 0 {
        0
    } else {
        spec_digits_val(s.drop_last()) * 10 + (s.last() as u32 - '0' as u32)
    }
}

/// What parsing `s` as a signed 64-bit integer yields: an optional single
/// sign followed by at least one digit, with the value in range; anything
/// else is no integer.
pub open spec fn spec_parse_i64(s: Seq<char>) -> Option<int> {
    let neg = s.len() > 0 && s[0] == '-';
    let body = if s.len() > 0 && (s[0] == '-' || s[0] == '+') {
        s.drop_first()
    } else {
        s
    };
    if body.len() == 0 || !spec_all_digits(body) {
        None
    } else {
        let v = if neg {
            -spec_digits_val(body)
        } else {
            spec_digits_val(body)
        };
        if i64::MIN <= v <= i64::MAX {
            Some(v)
        } else {
            None
        }
    }
}

/// What [`parse_toml_value`] yields: an integer if the text parses as one,
/// else a boolean if it is exactly `true` or `false`, else the text itself.
pub open spec fn spec_parse_toml_value(raw: Seq<char>) -> TomlValueModel {
    if spec_parse_i64(raw) is Some {
        TomlValueModel::Integer(spec_parse_i64(raw)->0)
    } else if raw == "true"@ {
        TomlValueModel::Boolean(true)
    } else if raw == "false"@ {
        TomlValueModel::Boolean(false)
    } else {
        TomlValueModel::Str(raw)
    }
}

/// Parses the digit body of an integer, saturating just above the largest
/// magnitude a signed 64-bit value can have.
fn digits_magnitude(s: &str, from: usize, n: usize) -> (r: Option<u64>)
    requires
        from <= n,
        n == s@.len(),
    ensures
        ({
            let body = s@.skip(from as int);
            match r {
                None => !spec_all_digits(body),
                Some(mag) => {
                    &&& spec_all_digits(body)
                    &&& if spec_digits_val(body) <= 9223372036854775809 {
                        mag == spec_digits_val(body)
                    } else {
                        mag == 9223372036854775809u64
                    }
                },
            }
        }),
{
    let mut i: usize = from;
    let mut mag: u64 = 0;
    while i < n
        invariant
            from <= i <= n,
            n == s@.len(),
            forall|k: int|
                0 <= k < (i - from) ==> spec_is_digit(#[trigger] s@.skip(from as int)[k]),
            ({
                let v = spec_digits_val(s@.skip(from as int).take(i - from));
                if v <= 9223372036854775809 {
                    mag == v
                } else {
                    mag == 9223372036854775809u64
                }
            }),
            mag <= 9223372036854775809u64,
        decreases n - i,
    {
        let c = s.get_char(i);
        let cv = c as u32;
        proof {
            assert(s@.skip(from as int)[i - from] == s@[i as int]);
        }
        if cv < 48 || cv > 57 {
            proof {
                assert(!spec_is_digit(s@.skip(from as int)[i - from]));
            }
            return None;
        }
        let d: u64 = (cv - 48) as u64;
        proof {
            let body = s@.skip(from as int);
            assert(body.take(i - from + 1).drop_last() =~= body.take(i - from));
            assert(body.take(i - from + 1).last() == body[i - from]);
        }
        if mag > 922337203685477580 {
            mag = 9223372036854775809;
        } else {
            let next = mag * 10 + d;
            mag = if next > 9223372036854775809 {
                9223372036854775809
            } else {
                next
            };
        }
        i = i + 1;
    }
    proof {
        assert(s@.skip(from as int).take(n - from) =~= s@.skip(from as int));
        assert(spec_all_digits(s@.skip(from as int)));
    }
    Some(mag)
}

/// Parses `s` as a signed 64-bit integer, exactly as
/// [`spec_parse_i64`] describes.
pub fn parse_i64(s: &str) -> (r: Option<i64>)
    ensures
        match r {
            Some(v) => spec_parse_i64(s@) == Some(v as int),
            None => spec_parse_i64(s@) is None,
        },
{
    let n = s.unicode_len();
    if n == 0 {
        return None;
    }
    let first = s.get_char(0);
    let neg = first == '-';
    let from: usize = if first == '-' || first == '+' {
        1
    } else {
        0
    };
    if from == n {
        return None;
    }
    proof {
        if from == 1 {
            assert(s@.skip(1) =~= s@.drop_first());
        } else {
            assert(s@.skip(0) =~= s@);
        }
    }
    match digits_magnitude(s, from, n) {
        None => {
            proof {
                let body_spec = if s@.len() > 0 && (s@[0] == '-' || s@[0] == '+') {
                    s@.drop_first()
                } else {
                    s@
                };
                assert(body_spec == s@.skip(from as int));
                assert(!spec_all_digits(body_spec));
            }
            None
        },
        Some(mag) => {
            proof {
                let body_spec = if s@.len() > 0 && (s@[0] == '-' || s@[0] == '+') {
                    s@.drop_first()
                } else {
                    s@
                };
                assert(body_spec == s@.skip(from as int));
                assert(spec_all_digits(body_spec));
            }
            if neg {
                if mag > 9223372036854775808 {
                    None
                } else if mag == 9223372036854775808 {
                    Some(i64::MIN)
                } else {
                    Some(-(mag as i64))
                }
            } else {
                if mag > 9223372036854775807 {
                    None
                } else {
                    Some(mag as i64)
                }
            }
        },
    }
}

/// Whether `s` reads exactly `true`.
fn is_literal_true(s: &str) -> (r: bool)
    ensures
        r == (s@ == "true"@),
{
    proof {
        reveal_strlit("true");
    }
    let n = s.unicode_len();
    if n != 4 {
        return false;
    }
    let r = s.get_char(0) == 't' && s.get_char(1) == 'r' && s.get_char(2) == 'u' && s.get_char(3)
        == 'e';
    proof {
        if r {
            assert(s@ =~= "true"@);
        }
    }
    r
}

/// Whether `s` reads exactly `false`.
fn is_literal_false(s: &str) -> (r: bool)
    ensures
        r == (s@ == "false"@),
{
    proof {
        reveal_strlit("false");
    }
    let n = s.unicode_len();
    if n != 5 {
        return false;
    }
    let r = s.get_char(0) == 'f' && s.get_char(1) == 'a' && s.get_char(2) == 'l' && s.get_char(3)
        == 's' && s.get_char(4) == 'e';
    proof {
        if r {
            assert(s@ =~= "false"@);
        }
    }
    r
}

/// Parses a value passed on the command line into its configuration value:
/// an integer if it reads as one, a boolean if it reads `true` or `false`,
/// and the bare text otherwise.
pub fn parse_toml_value(raw: &str) -> (r: TomlValue)
    ensures
        r@ == spec_parse_toml_value(raw@),
{
    match parse_i64(raw) {
        Some(v) => TomlValue::Integer(v),
        None => {
            if is_literal_true(raw) {
                TomlValue::Boolean(true)
            } else if is_literal_false(raw) {
                TomlValue::Boolean(false)
            } else {
                TomlValue::Str(String::from_str(raw))
            }
        },
    }
}


/// Finds the first occurrence of `c` in `s` at or after `from`.
fn find_char_from(s: &str, from: usize, n: usize, c: char) -> (r: Option<usize>)
    requires
        from <= n,
        n == s@.len(),
    ensures
        match r {
            Some(i) => from <= i < n && s@[i as int] == c && (forall|k: int|
                from <= k < i ==> s@[k] != c),
            None => forall|k: int| from <= k < n ==> s@[k] != c,
        },
{
    let mut i: usize = from;
    while i < n
        invariant
            from <= i <= n,
            n == s@.len(),
            forall|k: int| from <= k < i ==> s@[k] != c,
        decreases n - i,
    {
        if s.get_char(i) == c {
            return Some(i);
        }
        i = i + 1;
    }
    None
}

/// A well-formed split of a configuration extension: `p` is the position of
/// the first dot, which ends the non-empty section name; `q` is the
/// position of the first `=` after the dot, which ends the non-empty key;
/// the non-empty value is everything after.
pub open spec fn spec_ext_split(s: Seq<char>, p: int, q: int) -> bool {
    &&& 1 <= p
    &&& p + 2 <= q
    &&& q + 1 < s.len()
    &&& s[p] == '.'
    &&& s[q] == '='
    &&& forall|k: int| 0 <= k < p ==> s[k] != '.'
    &&& forall|k: int| p < k < q ==> s[k] != '='
}

/// Command line extension to be applied to configuration file values.
#[derive(Clone, PartialEq, Debug)]
pub struct ConfigExt {
    section: String,
    key: String,
    value: String,
}

impl ConfigExt {
    /// The section the extension addresses.
    pub closed spec fn spec_section(&self) -> Seq<char> {
        self.section@
    }

    /// The key within the section.
    pub closed spec fn spec_key(&self) -> Seq<char> {
        self.key@
    }

    /// The raw text of the value.
    pub closed spec fn spec_value(&self) -> Seq<char> {
        self.value@
    }

    /// The section the extension addresses.
    pub fn section(&self) -> (r: &String)
        ensures
            r@ == self.spec_section(),
    {
        &self.section
    }

    /// The key within the section.
    pub fn key(&self) -> (r: &String)
        ensures
            r@ == self.spec_key(),
    {
        &self.key
    }

    /// The raw text of the value.
    pub fn value(&self) -> (r: &String)
        ensures
            r@ == self.spec_value(),
    {
        &self.value
    }

    /// Builds an extension from its three parts.
    pub fn new(section: String, key: String, value: String) -> (r: ConfigExt)
        ensures
            r.spec_section() == section@,
            r.spec_key() == key@,
            r.spec_value() == value@,
    {
        ConfigExt { section, key, value }
    }

    /// Attempts to create a `ConfigExt` from text patterned as
    /// `section.key=value`: the section is everything before the first dot,
    /// the key everything from there to the first `=` that follows, the
    /// value the rest; each of the three must be non-empty.
    pub fn from_str(input: &str) -> (r: Option<ConfigExt>)
        ensures
            r is Some <==> (exists|p: int, q: int| spec_ext_split(input@, p, q)),
            r matches Some(ext) ==> forall|p: int, q: int|
                spec_ext_split(input@, p, q) ==> (ext.spec_section() == input@.subrange(0, p)
                    && ext.spec_key() == input@.subrange(p + 1, q) && ext.spec_value()
                    == input@.subrange(q + 1, input@.len() as int)),
    {
        let n = input.unicode_len();
        let p = match find_char_from(input, 0, n, '.') {
            None => {
                proof {
                    assert forall|p2: int, q2: int| !#[trigger] spec_ext_split(input@, p2, q2) by {
                        if spec_ext_split(input@, p2, q2) {
                            assert(input@[p2] == '.');
                        }
                    }
                }
                return None;
            },
            Some(p) => p,
        };
        if p == 0 {
            proof {
                assert forall|p2: int, q2: int| !#[trigger] spec_ext_split(input@, p2, q2) by {
                    if spec_ext_split(input@, p2, q2) {
                        if p2 <= 0 {
                        } else {
                            assert(input@[0] != '.');
                        }
                    }
                }
            }
            return None;
        }
        let q = match find_char_from(input, p + 1, n, '=') {
            None => {
                proof {
                    assert forall|p2: int, q2: int| !#[trigger] spec_ext_split(input@, p2, q2) by {
                        if spec_ext_split(input@, p2, q2) {
                            assert(p2 == p) by {
                                if p2 < p {
                                    assert(input@[p2] != '.');
                                } else if p2 > p {
                                    assert(input@[p as int] != '.');
                                }
                            }
                            assert(input@[q2] != '=');
                        }
                    }
                }
                return None;
            },
            Some(q) => q,
        };
        if q < p + 2 || q + 1 >= n {
            proof {
                assert forall|p2: int, q2: int| !#[trigger] spec_ext_split(input@, p2, q2) by {
                    if spec_ext_split(input@, p2, q2) {
                        assert(p2 == p) by {
                            if p2 < p {
                                assert(input@[p2] != '.');
                            } else if p2 > p {
                                assert(input@[p as int] != '.');
                            }
                        }
                        assert(q2 == q) by {
                            if q2 < q {
                                assert(input@[q2] != '=');
                            } else if q2 > q {
                                assert(input@[q as int] != '=');
                            }
                        }
                    }
                }
            }
            return None;
        }
        let section = input.substring_char(0, p).to_owned();
        let key = input.substring_char(p + 1, q).to_owned();
        let value = input.substring_char(q + 1, n).to_owned();
        let ext = ConfigExt { section, key, value };
        proof {
            assert(spec_ext_split(input@, p as int, q as int));
            assert forall|p2: int, q2: int| spec_ext_split(input@, p2, q2) implies (p2 == p && q2
                == q) by {
                if p2 < p {
                    assert(input@[p2] != '.');
                } else if p2 > p {
                    assert(input@[p as int] != '.');
                }
                if q2 < q {
                    assert(input@[q2] != '=');
                } else if q2 > q {
                    assert(input@[q as int] != '=');
                }
            }
        }
        Some(ext)
    }
}


/// One key/value entry of a configuration section.
#[derive(Clone, PartialEq, Debug)]
pub struct ConfigEntry {
    pub key: String,
    pub value: TomlValue,
}

/// Spec-level model of an entry.
pub struct EntryModel {
    pub key: Seq<char>,
    pub value: TomlValueModel,
}

impl View for ConfigEntry {
    type V = EntryModel;

    open spec fn view(&self) -> EntryModel {
        EntryModel { key: self.key@, value: self.value@ }
    }
}

/// One named section of the configuration table.
#[derive(Clone, PartialEq, Debug)]
pub struct ConfigSection {
    pub name: String,
    pub entries: Vec<ConfigEntry>,
}

/// Spec-level model of a section.
pub struct SectionModel {
    pub name: Seq<char>,
    pub entries: Seq<EntryModel>,
}

impl View for ConfigSection {
    type V = SectionModel;

    open spec fn view(&self) -> SectionModel {
        SectionModel {
            name: self.name@,
            entries: self.entries@.map_values(|e: ConfigEntry| e@),
        }
    }
}

/// The two-level configuration table: sections of key/value entries.
#[derive(Clone, PartialEq, Debug)]
pub struct ConfigTable {
    pub sections: Vec<ConfigSection>,
}

/// Spec-level model of the table.
pub struct ConfigTableModel {
    pub sections: Seq<SectionModel>,
}

impl View for ConfigTable {
    type V = ConfigTableModel;

    open spec fn view(&self) -> ConfigTableModel {
        ConfigTableModel { sections: self.sections@.map_values(|s: ConfigSection| s@) }
    }
}

impl ConfigTable {
    pub fn new() -> (r: ConfigTable)
        ensures
            r@.sections == Seq::<SectionModel>::empty(),
    {
        let r = ConfigTable { sections: Vec::new() };
        proof {
            assert(r@.sections =~= Seq::<SectionModel>::empty());
        }
        r
    }
}

/// What updating a run of entries does: the first entry with the key gets
/// the new value; if none has it, a new entry joins the end.
pub open spec fn spec_update_entries(
    entries: Seq<EntryModel>,
    key: Seq<char>,
    value: TomlValueModel,
) -> Seq<EntryModel>
    decreases entries.len(),
{
    if entries.len() == 0 {
        seq![EntryModel { key, value }]
    } else if entries[0].key == key {
        seq![EntryModel { key, value }] + entries.drop_first()
    } else {
        seq![entries[0]] + spec_update_entries(entries.drop_first(), key, value)
    }
}

/// What updating the table does: the first section with the name has its
/// entries updated; if none has it, a new section with the one entry joins
/// the end.
pub open spec fn spec_update_table(
    sections: Seq<SectionModel>,
    name: Seq<char>,
    key: Seq<char>,
    value: TomlValueModel,
) -> Seq<SectionModel>
    decreases sections.len(),
{
    if sections.len() == 0 {
        seq![SectionModel { name, entries: seq![EntryModel { key, value }] }]
    } else if sections[0].name == name {
        seq![
            SectionModel {
                name: sections[0].name,
                entries: spec_update_entries(sections[0].entries, key, value),
            },
        ] + sections.drop_first()
    } else {
        seq![sections[0]] + spec_update_table(sections.drop_first(), name, key, value)
    }
}

proof fn lemma_update_entries_found(
    entries: Seq<EntryModel>,
    key: Seq<char>,
    value: TomlValueModel,
    i: int,
)
    requires
        0 <= i < entries.len(),
        entries[i].key == key,
        forall|k: int| 0 <= k < i ==> entries[k].key != key,
    ensures
        spec_update_entries(entries, key, value) == entries.update(
            i,
            EntryModel { key, value },
        ),
    decreases i,
{
    if i == 0 {
        assert(spec_update_entries(entries, key, value) =~= entries.update(
            0,
            EntryModel { key, value },
        ));
    } else {
        lemma_update_entries_found(entries.drop_first(), key, value, i - 1);
        assert(spec_update_entries(entries, key, value) =~= entries.update(
            i,
            EntryModel { key, value },
        ));
    }
}

proof fn lemma_update_entries_absent(
    entries: Seq<EntryModel>,
    key: Seq<char>,
    value: TomlValueModel,
)
    requires
        forall|k: int| 0 <= k < entries.len() ==> entries[k].key != key,
    ensures
        spec_update_entries(entries, key, value) == entries.push(EntryModel { key, value }),
    decreases entries.len(),
{
    if entries.len() == 0 {
        assert(spec_update_entries(entries, key, value) =~= entries.push(
            EntryModel { key, value },
        ));
    } else {
        lemma_update_entries_absent(entries.drop_first(), key, value);
        assert(spec_update_entries(entries, key, value) =~= entries.push(
            EntryModel { key, value },
        ));
    }
}

proof fn lemma_update_table_found(
    sections: Seq<SectionModel>,
    name: Seq<char>,
    key: Seq<char>,
    value: TomlValueModel,
    i: int,
)
    requires
        0 <= i < sections.len(),
        sections[i].name == name,
        forall|k: int| 0 <= k < i ==> sections[k].name != name,
    ensures
        spec_update_table(sections, name, key, value) == sections.update(
            i,
            SectionModel {
                name: sections[i].name,
                entries: spec_update_entries(sections[i].entries, key, value),
            },
        ),
    decreases i,
{
    if i == 0 {
        assert(spec_update_table(sections, name, key, value) =~= sections.update(
            0,
            SectionModel {
                name: sections[0].name,
                entries: spec_update_entries(sections[0].entries, key, value),
            },
        ));
    } else {
        lemma_update_table_found(sections.drop_first(), name, key, value, i - 1);
        assert(spec_update_table(sections, name, key, value) =~= sections.update(
            i,
            SectionModel {
                name: sections[i].name,
                entries: spec_update_entries(sections[i].entries, key, value),
            },
        ));
    }
}

proof fn lemma_update_table_absent(
    sections: Seq<SectionModel>,
    name: Seq<char>,
    key: Seq<char>,
    value: TomlValueModel,
)
    requires
        forall|k: int| 0 <= k < sections.len() ==> sections[k].name != name,
    ensures
        spec_update_table(sections, name, key, value) == sections.push(
            SectionModel { name, entries: seq![EntryModel { key, value }] },
        ),
    decreases sections.len(),
{
    if sections.len() == 0 {
        assert(spec_update_table(sections, name, key, value) =~= sections.push(
            SectionModel { name, entries: seq![EntryModel { key, value }] },
        ));
    } else {
        lemma_update_table_absent(sections.drop_first(), name, key, value);
        assert(spec_update_table(sections, name, key, value) =~= sections.push(
            SectionModel { name, entries: seq![EntryModel { key, value }] },
        ));
    }
}

impl ConfigExt {
    /// Updates the configuration table with this extension: the addressed
    /// section is created if missing, and within it the key is set to the
    /// parsed value, overriding an existing entry or extending the section.
    pub fn update_toml_table(&self, table: &mut ConfigTable)
        ensures
            final(table)@.sections == spec_update_table(
                old(table)@.sections,
                self.spec_section(),
                self.spec_key(),
                spec_parse_toml_value(self.spec_value()),
            ),
    {
        let val = parse_toml_value(self.value.as_str());
        let n = table.sections.len();
        let mut si: usize = 0;
        let mut found: bool = false;
        while si < n && !found
            invariant
                0 <= si <= n,
                n == table.sections@.len(),
                table@ == old(table)@,
                found ==> si < n && table@.sections[si as int].name == self.spec_section(),
                forall|k: int| 0 <= k < si ==> table@.sections[k].name != self.spec_section(),
            decreases n - si + (if found { 0int } else { 1int }),
        {
            proof {
                assert(table@.sections[si as int] == table.sections@[si as int]@);
            }
            if table.sections[si].name == self.section {
                found = true;
            } else {
                si = si + 1;
            }
        }
        if !found {
            let mut entries: Vec<ConfigEntry> = Vec::new();
            entries.push(ConfigEntry { key: self.key.clone(), value: val });
            let section = ConfigSection { name: self.section.clone(), entries };
            let ghost entry_m = EntryModel {
                key: self.spec_key(),
                value: spec_parse_toml_value(self.spec_value()),
            };
            let ghost section_m = SectionModel { name: self.spec_section(), entries: seq![entry_m] };
            proof {
                assert(section@.entries =~= seq![entry_m]);
                assert(section@ == section_m);
            }
            table.sections.push(section);
            proof {
                lemma_update_table_absent(
                    old(table)@.sections,
                    self.spec_section(),
                    self.spec_key(),
                    spec_parse_toml_value(self.spec_value()),
                );
                assert(table@.sections =~= old(table)@.sections.push(section_m));
            }
        } else {
            let sec = &mut table.sections[si];
            let m = sec.entries.len();
            let mut ei: usize = 0;
            let mut efound: bool = false;
            let ghost sec0 = sec@;
            while ei < m && !efound
                invariant
                    0 <= ei <= m,
                    m == sec.entries@.len(),
                    sec@ == sec0,
                    efound ==> ei < m && sec0.entries[ei as int].key == self.spec_key(),
                    forall|k: int| 0 <= k < ei ==> sec0.entries[k].key != self.spec_key(),
                decreases m - ei + (if efound { 0int } else { 1int }),
            {
                proof {
                    assert(sec0.entries[ei as int] == sec.entries@[ei as int]@);
                }
                if sec.entries[ei].key == self.key {
                    efound = true;
                } else {
                    ei = ei + 1;
                }
            }
            let ghost entry_m = EntryModel {
                key: self.spec_key(),
                value: spec_parse_toml_value(self.spec_value()),
            };
            if efound {
                let e = &mut sec.entries[ei];
                e.key = self.key.clone();
                e.value = val;
                proof {
                    lemma_update_entries_found(
                        sec0.entries,
                        self.spec_key(),
                        spec_parse_toml_value(self.spec_value()),
                        ei as int,
                    );
                    assert(sec@.entries =~= sec0.entries.update(ei as int, entry_m));
                }
            } else {
                sec.entries.push(ConfigEntry { key: self.key.clone(), value: val });
                proof {
                    lemma_update_entries_absent(
                        sec0.entries,
                        self.spec_key(),
                        spec_parse_toml_value(self.spec_value()),
                    );
                    assert(sec@.entries =~= sec0.entries.push(entry_m));
                }
            }
            proof {
                assert(sec@.name == sec0.name);
                lemma_update_table_found(
                    old(table)@.sections,
                    self.spec_section(),
                    self.spec_key(),
                    spec_parse_toml_value(self.spec_value()),
                    si as int,
                );
                assert(table@.sections =~= old(table)@.sections.update(si as int, sec@));
            }
        }
    }
}

/// The commands of the node's command line.
#[derive(Clone, PartialEq, Debug)]
pub enum Cli {
    /// Generate a self-signed node certificate at the given output path
    /// base.
    GenerateCert { output: String },
    /// Generate a configuration file from defaults and dump it.
    GenerateConfig {},
    /// Run the validator node: load configuration, apply extensions, then
    /// boot the two-phase reactor.
    Validator { config: Option<String>, config_ext: Vec<ConfigExt> },
}


/// Whether a configuration key names a file path: it ends in `path`.
pub open spec fn spec_key_names_path(k: Seq<char>) -> bool {
    k.len() >= 4 && k.subrange(k.len() - 4, k.len() as int) == "path"@
}

/// Executable counterpart of [`spec_key_names_path`].
pub fn key_names_path(k: &str) -> (r: bool)
    ensures
        r == spec_key_names_path(k@),
{
    proof {
        reveal_strlit("path");
    }
    let n = k.unicode_len();
    if n < 4 {
        return false;
    }
    let r = k.get_char(n - 4) == 'p' && k.get_char(n - 3) == 'a' && k.get_char(n - 2) == 't'
        && k.get_char(n - 1) == 'h';
    proof {
        let sub = k@.subrange(n - 4, n as int);
        assert(sub[0] == k@[n as int - 4] && sub[1] == k@[n as int - 3] && sub[2] == k@[n as int
            - 2] && sub[3] == k@[n as int - 1]);
        if r {
            assert(sub =~= "path"@);
        } else {
            assert(sub != "path"@) by {
                if sub == "path"@ {
                    assert(sub[0] == 'p' && sub[1] == 'a' && sub[2] == 't' && sub[3] == 'h');
                }
            }
        }
    }
    r
}

/// Whether a path is relative under the POSIX rule: it does not start with
/// a separator.
pub open spec fn spec_path_is_relative(p: Seq<char>) -> bool {
    !(p.len() > 0 && p[0] == '/')
}

/// Executable counterpart of [`spec_path_is_relative`].
pub fn path_is_relative(p: &str) -> (r: bool)
    ensures
        r == spec_path_is_relative(p@),
{
    let n = p.unicode_len();
    if n == 0 {
        true
    } else {
        !(p.get_char(0) == '/')
    }
}

/// Joins a relative path onto a root directory with a separator.
pub fn join_paths(root: &str, path: &str) -> (r: String)
    ensures
        r@ == root@ + "/"@ + path@,
{
    let mut out = root.to_owned();
    out.append("/");
    out.append(path);
    out
}

/// What normalizing one value does: a textual value of a path-naming key
/// that is relative is joined onto the root; everything else is untouched.
pub open spec fn spec_norm_value(
    key: Seq<char>,
    v: TomlValueModel,
    root: Seq<char>,
) -> TomlValueModel {
    match v {
        TomlValueModel::Str(p) => {
            if spec_key_names_path(key) && spec_path_is_relative(p) {
                TomlValueModel::Str(root + "/"@ + p)
            } else {
                v
            }
        },
        _ => v,
    }
}

/// [`spec_norm_value`] applied to one entry.
pub open spec fn spec_norm_entry(e: EntryModel, root: Seq<char>) -> EntryModel {
    EntryModel { key: e.key, value: spec_norm_value(e.key, e.value, root) }
}

/// [`spec_norm_entry`] applied throughout one section.
pub open spec fn spec_norm_section(s: SectionModel, root: Seq<char>) -> SectionModel {
    SectionModel {
        name: s.name,
        entries: s.entries.map_values(|e: EntryModel| spec_norm_entry(e, root)),
    }
}

/// [`spec_norm_section`] applied throughout the table.
pub open spec fn spec_norm_table(
    sections: Seq<SectionModel>,
    root: Seq<char>,
) -> Seq<SectionModel> {
    sections.map_values(|s: SectionModel| spec_norm_section(s, root))
}

/// Normalizes every config value that names a relative file path, relative
/// to the directory of the config file: each such value is joined onto
/// `root`.  Keys that do not end in `path`, non-textual values and absolute
/// paths are left untouched.
pub fn normalize_paths(table: &mut ConfigTable, root: &str)
    ensures
        final(table)@.sections == spec_norm_table(old(table)@.sections, root@),
{
    let n = table.sections.len();
    let mut new_sections: Vec<ConfigSection> = Vec::new();
    let mut si: usize = 0;
    while si < n
        invariant
            0 <= si <= n,
            n == table.sections@.len(),
            table@ == old(table)@,
            new_sections@.len() == si as nat,
            forall|j: int|
                0 <= j < si ==> #[trigger] new_sections@[j]@ == spec_norm_section(
                    table@.sections[j],
                    root@,
                ),
        decreases n - si,
    {
        let sec = &table.sections[si];
        let ghost sec_m = table@.sections[si as int];
        proof {
            assert(sec_m == sec@);
        }
        let m = sec.entries.len();
        let mut new_entries: Vec<ConfigEntry> = Vec::new();
        let mut ei: usize = 0;
        while ei < m
            invariant
                0 <= ei <= m,
                m == sec.entries@.len(),
                sec_m == sec@,
                new_entries@.len() == ei as nat,
                forall|j: int|
                    0 <= j < ei ==> #[trigger] new_entries@[j]@ == spec_norm_entry(
                        sec_m.entries[j],
                        root@,
                    ),
            decreases m - ei,
        {
            let e = &sec.entries[ei];
            proof {
                assert(sec_m.entries[ei as int] == sec.entries@[ei as int]@);
            }
            let new_val = match &e.value {
                TomlValue::Str(p) => {
                    if key_names_path(e.key.as_str()) && path_is_relative(p.as_str()) {
                        TomlValue::Str(join_paths(root, p.as_str()))
                    } else {
                        TomlValue::Str(p.clone())
                    }
                },
                TomlValue::Integer(v) => TomlValue::Integer(*v),
                TomlValue::Boolean(b) => TomlValue::Boolean(*b),
            };
            new_entries.push(ConfigEntry { key: e.key.clone(), value: new_val });
            ei = ei + 1;
        }
        let new_section = ConfigSection { name: sec.name.clone(), entries: new_entries };
        proof {
            assert(new_section@.entries =~= sec_m.entries.map_values(
                |e: EntryModel| spec_norm_entry(e, root@),
            ));
            assert(new_section@ == spec_norm_section(sec_m, root@));
        }
        new_sections.push(new_section);
        si = si + 1;
    }
    *table = ConfigTable { sections: new_sections };
    proof {
        assert(table@.sections =~= spec_norm_table(old(table)@.sections, root@));
    }
}

} // verus!
