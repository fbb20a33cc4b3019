//! The conditions under which a route matches, and the rewrites that it makes.

use crate::table::Table;
use crate::text;
use vstd::prelude::*;

verus! {

/// A part of a request that a condition or a rewrite speaks of.
#[derive(Clone, Copy, PartialEq, Eq, Debug, Structural)]
pub enum Field {
    FromUser,
    FromHost,
    ToUser,
    ToHost,
    ToPort,
    RequestUriUser,
    RequestUriHost,
    RequestUriPort,
}

/// The patterns that a request is held against: one for each part, under its own name or
/// under an alias, and one for each further header.
pub struct MatchConditions {
    pub from_user: Option<String>,
    pub from_host: Option<String>,
    pub to_user: Option<String>,
    pub to_host: Option<String>,
    pub to_port: Option<String>,
    pub request_uri_user: Option<String>,
    pub request_uri_host: Option<String>,
    pub request_uri_port: Option<String>,
    pub from: Option<String>,
    pub caller: Option<String>,
    pub to: Option<String>,
    pub callee: Option<String>,
    pub headers: Table<String>,
}

/// What the parts of a request and its headers are replaced by.
pub struct RewriteRules {
    pub from_user: Option<String>,
    pub from_host: Option<String>,
    pub to_user: Option<String>,
    pub to_host: Option<String>,
    pub to_port: Option<String>,
    pub request_uri_user: Option<String>,
    pub request_uri_host: Option<String>,
    pub request_uri_port: Option<String>,
    pub headers: Table<String>,
}

impl MatchConditions {
    pub open spec fn field(self, f: Field) -> Option<Seq<char>> {
        text::opt_text(
            match f {
                Field::FromUser => self.from_user,
                Field::FromHost => self.from_host,
                Field::ToUser => self.to_user,
                Field::ToHost => self.to_host,
                Field::ToPort => self.to_port,
                Field::RequestUriUser => self.request_uri_user,
                Field::RequestUriHost => self.request_uri_host,
                Field::RequestUriPort => self.request_uri_port,
            },
        )
    }

    /// Conditions that match everything.
    pub fn new() -> (r: MatchConditions)
        ensures
            r.headers.wf(),
            forall|f: Field| #[trigger] r.field(f) is None,
            forall|k: Seq<char>| #[trigger] r.headers.value(k) is None,
            r.from is None,
            r.caller is None,
            r.to is None,
            r.callee is None,
    {
        MatchConditions {
            from_user: None,
            from_host: None,
            to_user: None,
            to_host: None,
            to_port: None,
            request_uri_user: None,
            request_uri_host: None,
            request_uri_port: None,
            from: None,
            caller: None,
            to: None,
            callee: None,
            headers: Table::new(),
        }
    }
}

impl RewriteRules {
    pub open spec fn field(self, f: Field) -> Option<Seq<char>> {
        text::opt_text(
            match f {
                Field::FromUser => self.from_user,
                Field::FromHost => self.from_host,
                Field::ToUser => self.to_user,
                Field::ToHost => self.to_host,
                Field::ToPort => self.to_port,
                Field::RequestUriUser => self.request_uri_user,
                Field::RequestUriHost => self.request_uri_host,
                Field::RequestUriPort => self.request_uri_port,
            },
        )
    }

    /// Rules that rewrite nothing.
    pub fn new() -> (r: RewriteRules)
        ensures
            r.headers.wf(),
            forall|f: Field| #[trigger] r.field(f) is None,
            forall|k: Seq<char>| #[trigger] r.headers.value(k) is None,
    {
        RewriteRules {
            from_user: None,
            from_host: None,
            to_user: None,
            to_host: None,
            to_port: None,
            request_uri_user: None,
            request_uri_host: None,
            request_uri_port: None,
            headers: Table::new(),
        }
    }
}

/// A value that is set: trimmed, and only where anything is left of it.
pub open spec fn set_to(old_value: Option<Seq<char>>, value: Seq<char>) -> Option<Seq<char>> {
    if text::trimmed(value).len() == 0 {
        old_value
    } else {
        Some(text::trimmed(value))
    }
}

/// Sets a value, unless it is blank.
pub fn set_field(target: &mut Option<String>, value: &str)
    ensures
        text::opt_text(*final(target)) == set_to(text::opt_text(*old(target)), value@),
        text::trimmed(value@).len() == 0 ==> *final(target) == *old(target),
{
    let trimmed = text::trim(value);
    if trimmed.as_str().is_empty() {
        return ;
    }
    let same = match target {
        Some(existing) => text::same(existing, &trimmed),
        None => false,
    };
    if !same {
        *target = Some(trimmed);
    }
}

/// The value without the blanks around it, where anything is left.
pub fn sanitize_metadata_string(value: Option<String>) -> (r: Option<String>)
    ensures
        text::opt_text(r) == (match value {
            Some(raw) => if text::trimmed(raw@).len() > 0 {
                Some(text::trimmed(raw@))
            } else {
                None
            },
            None => None,
        }),
{
    match value {
        Some(raw) => {
            let trimmed = text::trim(&raw);
            if trimmed.as_str().is_empty() {
                None
            } else {
                Some(trimmed)
            }
        },
        None => None,
    }
}

/// The name of a condition in its one spelling: in small letters, with dots.
pub open spec fn canonical_key(raw: Seq<char>) -> Seq<char> {
    text::ascii_lower(text::trimmed(raw)).map_values(
        |c: char|
            if c == '_' || c == '-' {
                '.'
            } else {
                c
            },
    )
}

pub fn canonical_condition_key(raw: &str) -> (r: String)
    ensures
        r@ == canonical_key(raw@),
{
    let small = text::to_ascii_lowercase(&text::trim(raw));
    let dotted = text::replace_char(&small, '_', '.');
    let r = text::replace_char(&dotted, '-', '.');
    assert(r@ =~= canonical_key(raw@));
    r
}

/// The part that a name speaks of. Conditions know aliases for the two users.
pub open spec fn key_field(aliases: bool, key: Seq<char>) -> Option<Field> {
    if key == "from.user"@ || (aliases && (key == "caller"@ || key == "from"@)) {
        Some(Field::FromUser)
    } else if key == "from.host"@ {
        Some(Field::FromHost)
    } else if key == "to.user"@ || (aliases && (key == "callee"@ || key == "to"@)) {
        Some(Field::ToUser)
    } else if key == "to.host"@ {
        Some(Field::ToHost)
    } else if key == "to.port"@ {
        Some(Field::ToPort)
    } else if key == "request.uri.user"@ {
        Some(Field::RequestUriUser)
    } else if key == "request.uri.host"@ {
        Some(Field::RequestUriHost)
    } else if key == "request.uri.port"@ {
        Some(Field::RequestUriPort)
    } else {
        None
    }
}

fn field_of(aliases: bool, key: &str) -> (r: Option<Field>)
    ensures
        r == key_field(aliases, key@),
{
    if text::same(key, "from.user") || (aliases && (text::same(key, "caller") || text::same(
        key,
        "from",
    ))) {
        Some(Field::FromUser)
    } else if text::same(key, "from.host") {
        Some(Field::FromHost)
    } else if text::same(key, "to.user") || (aliases && (text::same(key, "callee") || text::same(
        key,
        "to",
    ))) {
        Some(Field::ToUser)
    } else if text::same(key, "to.host") {
        Some(Field::ToHost)
    } else if text::same(key, "to.port") {
        Some(Field::ToPort)
    } else if text::same(key, "request.uri.user") {
        Some(Field::RequestUriUser)
    } else if text::same(key, "request.uri.host") {
        Some(Field::RequestUriHost)
    } else if text::same(key, "request.uri.port") {
        Some(Field::RequestUriPort)
    } else {
        None
    }
}

/// The part that an entry speaks of, where its name is not blank.
pub open spec fn entry_field(aliases: bool, key: Seq<char>) -> Option<Field> {
    if text::trimmed(key).len() == 0 {
        None
    } else {
        key_field(aliases, canonical_key(text::trimmed(key)))
    }
}

/// The entry names a header.
pub open spec fn names_header(aliases: bool, key: Seq<char>) -> bool {
    text::trimmed(key).len() > 0 && entry_field(aliases, key) is None
}

/// Nothing but the named parts differs.
pub open spec fn same_rest(a: MatchConditions, b: MatchConditions) -> bool {
    a.from == b.from && a.caller == b.caller && a.to == b.to && a.callee == b.callee && a.headers
        == b.headers
}

/// Takes an entry that speaks of a part of the request, or of nothing; says whether it
/// did.
pub fn handle_match_key(conditions: &mut MatchConditions, key: &str, value: &str) -> (r: bool)
    ensures
        r == !names_header(true, key@),
        forall|f: Field| #[trigger]
            final(conditions).field(f) == if entry_field(true, key@) == Some(f) {
                set_to(old(conditions).field(f), value@)
            } else {
                old(conditions).field(f)
            },
        same_rest(*final(conditions), *old(conditions)),
{
    let trimmed_key = text::trim(key);
    if trimmed_key.as_str().is_empty() {
        return true;
    }
    let canonical = canonical_condition_key(&trimmed_key);
    match field_of(true, &canonical) {
        Some(Field::FromUser) => {
            set_field(&mut conditions.from_user, value);
            true
        },
        Some(Field::FromHost) => {
            set_field(&mut conditions.from_host, value);
            true
        },
        Some(Field::ToUser) => {
            set_field(&mut conditions.to_user, value);
            true
        },
        Some(Field::ToHost) => {
            set_field(&mut conditions.to_host, value);
            true
        },
        Some(Field::ToPort) => {
            set_field(&mut conditions.to_port, value);
            true
        },
        Some(Field::RequestUriUser) => {
            set_field(&mut conditions.request_uri_user, value);
            true
        },
        Some(Field::RequestUriHost) => {
            set_field(&mut conditions.request_uri_host, value);
            true
        },
        Some(Field::RequestUriPort) => {
            set_field(&mut conditions.request_uri_port, value);
            true
        },
        None => false,
    }
}

/// Takes an entry that speaks of a part of the request, or of nothing; says whether it
/// did.
pub fn handle_rewrite_key(rules: &mut RewriteRules, key: &str, value: &str) -> (r: bool)
    ensures
        r == !names_header(false, key@),
        forall|f: Field| #[trigger]
            final(rules).field(f) == if entry_field(false, key@) == Some(f) {
                set_to(old(rules).field(f), value@)
            } else {
                old(rules).field(f)
            },
        final(rules).headers == old(rules).headers,
{
    let trimmed_key = text::trim(key);
    if trimmed_key.as_str().is_empty() {
        return true;
    }
    let canonical = canonical_condition_key(&trimmed_key);
    match field_of(false, &canonical) {
        Some(Field::FromUser) => {
            set_field(&mut rules.from_user, value);
            true
        },
        Some(Field::FromHost) => {
            set_field(&mut rules.from_host, value);
            true
        },
        Some(Field::ToUser) => {
            set_field(&mut rules.to_user, value);
            true
        },
        Some(Field::ToHost) => {
            set_field(&mut rules.to_host, value);
            true
        },
        Some(Field::ToPort) => {
            set_field(&mut rules.to_port, value);
            true
        },
        Some(Field::RequestUriUser) => {
            set_field(&mut rules.request_uri_user, value);
            true
        },
        Some(Field::RequestUriHost) => {
            set_field(&mut rules.request_uri_host, value);
            true
        },
        Some(Field::RequestUriPort) => {
            set_field(&mut rules.request_uri_port, value);
            true
        },
        None => false,
    }
}

/// What a part is set to by entries that are taken in their order: the last one that
/// speaks of it and is not blank counts.
pub open spec fn part_after(
    aliases: bool,
    entries: Seq<(String, String)>,
    f: Field,
    before: Option<Seq<char>>,
) -> Option<Seq<char>>
    decreases entries.len(),
{
    if entries.len() == 0 {
        before
    } else {
        let rest = part_after(aliases, entries.drop_last(), f, before);
        let (key, value) = entries.last();
        if entry_field(aliases, key@) == Some(f) {
            set_to(rest, value@)
        } else {
            rest
        }
    }
}

/// What a header is held against, by entries that are taken in their order: the last one
/// that names it and is not blank counts.
pub open spec fn header_after(aliases: bool, entries: Seq<(String, String)>, name: Seq<char>) -> Option<
    Seq<char>,
>
    decreases entries.len(),
{
    if entries.len() == 0 {
        None
    } else {
        let (key, value) = entries.last();
        if names_header(aliases, key@) && text::trimmed(value@).len() > 0 && text::trimmed(key@)
            == name {
            Some(text::trimmed(value@))
        } else {
            header_after(aliases, entries.drop_last(), name)
        }
    }
}

pub open spec fn header_text(headers: Table<String>, name: Seq<char>) -> Option<Seq<char>> {
    text::opt_text(headers.value(name))
}

/// Takes filters, in the order in which they are walked: those that speak of a part of
/// the request set it, the others are the conditions on headers.
pub fn apply_match_filters(conditions: &mut MatchConditions, entries: &Vec<(String, String)>)
    ensures
        final(conditions).headers.wf(),
        forall|f: Field| #[trigger]
            final(conditions).field(f) == part_after(true, entries@, f, old(conditions).field(f)),
        forall|k: Seq<char>| #[trigger]
            header_text(final(conditions).headers, k) == header_after(true, entries@, k),
        final(conditions).from == old(conditions).from,
        final(conditions).caller == old(conditions).caller,
        final(conditions).to == old(conditions).to,
        final(conditions).callee == old(conditions).callee,
{
    let mut headers: Table<String> = Table::new();
    let mut i: usize = 0;
    assert(entries@.subrange(0, 0) =~= Seq::empty());
    while i < entries.len()
        invariant
            i <= entries@.len(),
            headers.wf(),
            forall|f: Field| #[trigger]
                conditions.field(f) == part_after(
                    true,
                    entries@.subrange(0, i as int),
                    f,
                    old(conditions).field(f),
                ),
            forall|k: Seq<char>| #[trigger]
                header_text(headers, k) == header_after(true, entries@.subrange(0, i as int), k),
            same_rest(*conditions, *old(conditions)),
        decreases entries@.len() - i,
    {
        proof {
            assert(entries@.subrange(0, i + 1).drop_last() =~= entries@.subrange(0, i as int));
            assert(entries@.subrange(0, i + 1).last() == entries@[i as int]);
        }
        let key = &entries[i].0;
        let value = text::trim(&entries[i].1);
        proof {
            text::trimmed_is_trimmed(entries@[i as int].1@);
        }
        if !value.as_str().is_empty() {
            if !handle_match_key(conditions, key, &value) {
                let ghost prior = headers;
                let ghost held = value@;
                headers.insert(text::trim(key), value);
                assert forall|k: Seq<char>| #[trigger] header_text(headers, k) == (if k
                    == text::trimmed(key@) {
                    Some(held)
                } else {
                    header_text(prior, k)
                }) by {
                    assert(headers.value(k) == headers.value(k));
                }
            }
        }
        i += 1;
    }
    assert(entries@.subrange(0, entries@.len() as int) =~= entries@);
    let ghost taken = *conditions;
    conditions.headers = headers;
    assert forall|f: Field| #[trigger] conditions.field(f) == taken.field(f) by {}
}

/// How rewrite rules stand once they are normalized.
pub open spec fn normalized(before: RewriteRules, after: RewriteRules) -> bool {
    &&& after.headers.wf()
    &&& forall|f: Field| #[trigger]
        after.field(f) == part_after(false, before.headers.entries@, f, before.field(f))
    &&& forall|k: Seq<char>| #[trigger]
        header_text(after.headers, k) == header_after(false, before.headers.entries@, k)
}

/// Replaces the headers of a rewrite: those that speak of a part of the request set it.
pub fn normalize_rewrite_rules(rules: &mut RewriteRules)
    ensures
        normalized(*old(rules), *final(rules)),
{
    let ghost existing = rules.headers.entries@;
    let mut walked: Table<String> = Table::new();
    std::mem::swap(&mut walked, &mut rules.headers);
    let entries = walked.entries;
    assert(entries@ == existing);
    let mut headers: Table<String> = Table::new();
    let mut i: usize = 0;
    assert(entries@.subrange(0, 0) =~= Seq::empty());
    while i < entries.len()
        invariant
            i <= entries@.len(),
            headers.wf(),
            forall|f: Field| #[trigger]
                rules.field(f) == part_after(
                    false,
                    entries@.subrange(0, i as int),
                    f,
                    old(rules).field(f),
                ),
            forall|k: Seq<char>| #[trigger]
                header_text(headers, k) == header_after(false, entries@.subrange(0, i as int), k),
        decreases entries@.len() - i,
    {
        proof {
            assert(entries@.subrange(0, i + 1).drop_last() =~= entries@.subrange(0, i as int));
            assert(entries@.subrange(0, i + 1).last() == entries@[i as int]);
            text::trimmed_is_trimmed(entries@[i as int].1@);
        }
        let key = &entries[i].0;
        let value = text::trim(&entries[i].1);
        if !value.as_str().is_empty() {
            if !handle_rewrite_key(rules, key, &value) {
                let ghost prior = headers;
                let ghost held = value@;
                headers.insert(text::trim(key), value);
                assert forall|k: Seq<char>| #[trigger] header_text(headers, k) == (if k
                    == text::trimmed(key@) {
                    Some(held)
                } else {
                    header_text(prior, k)
                }) by {
                    assert(headers.value(k) == headers.value(k));
                }
            }
        }
        i += 1;
    }
    assert(entries@.subrange(0, entries@.len() as int) =~= entries@);
    let ghost taken = *rules;
    rules.headers = headers;
    assert forall|f: Field| #[trigger] rules.field(f) == taken.field(f) by {}
}

/// A part after an alias for it.
pub open spec fn after_alias(before: Option<Seq<char>>, alias: Option<String>) -> Option<Seq<char>> {
    match alias {
        Some(value) => set_to(before, value@),
        None => before,
    }
}

/// What a part is once the aliases were taken.
pub open spec fn part_with_aliases(conditions: MatchConditions, f: Field) -> Option<Seq<char>> {
    match f {
        Field::FromUser => after_alias(
            after_alias(conditions.field(f), conditions.from),
            conditions.caller,
        ),
        Field::ToUser => after_alias(
            after_alias(conditions.field(f), conditions.to),
            conditions.callee,
        ),
        _ => conditions.field(f),
    }
}

fn take_aliases(conditions: &mut MatchConditions)
    ensures
        forall|f: Field| #[trigger]
            final(conditions).field(f) == part_with_aliases(*old(conditions), f),
        final(conditions).from is None,
        final(conditions).caller is None,
        final(conditions).to is None,
        final(conditions).callee is None,
        final(conditions).headers == old(conditions).headers,
{
    if let Some(value) = conditions.from.take() {
        set_field(&mut conditions.from_user, &value);
    }
    if let Some(value) = conditions.caller.take() {
        set_field(&mut conditions.from_user, &value);
    }
    if let Some(value) = conditions.to.take() {
        set_field(&mut conditions.to_user, &value);
    }
    if let Some(value) = conditions.callee.take() {
        set_field(&mut conditions.to_user, &value);
    }
}

/// How conditions stand once they are in their one form.
pub open spec fn finalized(before: MatchConditions, after: MatchConditions) -> bool {
    &&& after.headers.wf()
    &&& after.from is None && after.caller is None && after.to is None && after.callee is None
    &&& forall|f: Field| #[trigger]
        after.field(f) == part_after(
            true,
            before.headers.entries@,
            f,
            part_with_aliases(before, f),
        )
    &&& forall|k: Seq<char>| #[trigger]
        header_text(after.headers, k) == header_after(true, before.headers.entries@, k)
}

/// Puts conditions into their one form: no aliases, and only headers among the headers.
pub fn finalize_match_conditions(conditions: &mut MatchConditions)
    ensures
        finalized(*old(conditions), *final(conditions)),
{
    take_aliases(conditions);
    let ghost taken = *conditions;
    let mut walked: Table<String> = Table::new();
    std::mem::swap(&mut walked, &mut conditions.headers);
    let entries = walked.entries;
    assert forall|f: Field| #[trigger] conditions.field(f) == taken.field(f) by {}
    apply_match_filters(conditions, &entries);
}

/// The entries are in the one form: each names a header, and neither name nor value has
/// blanks around it.
pub open spec fn in_one_form(aliases: bool, entries: Seq<(String, String)>) -> bool {
    forall|i: int|
        0 <= i < entries.len() ==> {
            &&& names_header(aliases, (#[trigger] entries[i]).0@)
            &&& text::trimmed(entries[i].0@) == entries[i].0@
            &&& text::trimmed(entries[i].1@) == entries[i].1@
            &&& entries[i].1@.len() > 0
        }
}

/// A header that is kept has a name and a value without blanks around them, and its name
/// speaks of no part of the request.
pub proof fn kept_headers_are_in_one_form(
    aliases: bool,
    entries: Seq<(String, String)>,
    name: Seq<char>,
)
    requires
        header_after(aliases, entries, name) is Some,
    ensures
        names_header(aliases, name),
        text::trimmed(name) == name,
        text::trimmed(header_after(aliases, entries, name)->0) == header_after(
            aliases,
            entries,
            name,
        )->0,
        header_after(aliases, entries, name)->0.len() > 0,
    decreases entries.len(),
{
    let (key, value) = entries.last();
    if names_header(aliases, key@) && text::trimmed(value@).len() > 0 && text::trimmed(key@)
        == name {
        text::trimmed_is_trimmed(key@);
        text::trimmed_is_trimmed(value@);
    } else {
        kept_headers_are_in_one_form(aliases, entries.drop_last(), name);
    }
}

proof fn one_form_stays(
    aliases: bool,
    entries: Seq<(String, String)>,
    f: Field,
    before: Option<Seq<char>>,
    name: Seq<char>,
)
    requires
        in_one_form(aliases, entries),
        crate::table::distinct_keys(entries),
    ensures
        part_after(aliases, entries, f, before) == before,
        header_after(aliases, entries, name) == text::opt_text(crate::table::lookup(entries, name)),
    decreases entries.len(),
{
    crate::table::lookup_finds(entries, name);
    if entries.len() > 0 {
        let rest = entries.drop_last();
        let last = entries.len() - 1;
        assert(forall|j: int| 0 <= j < rest.len() ==> (#[trigger] rest[j]) == entries[j]);
        assert(names_header(aliases, entries[last].0@));
        one_form_stays(aliases, rest, f, before, name);
        crate::table::lookup_finds(rest, name);
        if entries[last].0@ != name {
            if crate::table::lookup(entries, name) is Some {
                let i = choose|i: int|
                    0 <= i < entries.len() && (#[trigger] entries[i]).0@ == name && entries[i].1
                        == crate::table::lookup(entries, name)->0;
                assert(rest[i].0@ == name);
                let j = choose|j: int|
                    0 <= j < rest.len() && (#[trigger] rest[j]).0@ == name && rest[j].1
                        == crate::table::lookup(rest, name)->0;
                assert(entries[j].0@ == name);
                assert(i == j);
            } else if crate::table::lookup(rest, name) is Some {
                let j = choose|j: int|
                    0 <= j < rest.len() && (#[trigger] rest[j]).0@ == name && rest[j].1
                        == crate::table::lookup(rest, name)->0;
                assert(entries[j].0@ == name);
            }
        } else {
            let i = choose|i: int|
                0 <= i < entries.len() && (#[trigger] entries[i]).0@ == name && entries[i].1
                    == crate::table::lookup(entries, name)->0;
            assert(i == last);
        }
    }
}

proof fn entries_have_their_values(entries: Seq<(String, String)>, i: int)
    requires
        crate::table::distinct_keys(entries),
        0 <= i < entries.len(),
    ensures
        crate::table::lookup(entries, entries[i].0@) == Some(entries[i].1),
{
    let name = entries[i].0@;
    crate::table::lookup_finds(entries, name);
    let j = choose|j: int|
        0 <= j < entries.len() && (#[trigger] entries[j]).0@ == name && entries[j].1
            == crate::table::lookup(entries, name)->0;
    assert(i == j);
}

/// Every header that was kept out of a list of entries is in the one form.
proof fn kept_entries_are_in_one_form(
    aliases: bool,
    headers: Table<String>,
    entries: Seq<(String, String)>,
)
    requires
        headers.wf(),
        forall|k: Seq<char>| #[trigger]
            header_text(headers, k) == header_after(aliases, entries, k),
    ensures
        in_one_form(aliases, headers.entries@),
{
    let kept = headers.entries@;
    assert forall|i: int| 0 <= i < kept.len() implies {
        &&& names_header(aliases, (#[trigger] kept[i]).0@)
        &&& text::trimmed(kept[i].0@) == kept[i].0@
        &&& text::trimmed(kept[i].1@) == kept[i].1@
        &&& kept[i].1@.len() > 0
    } by {
        let name = kept[i].0@;
        entries_have_their_values(kept, i);
        assert(header_text(headers, name) == Some(kept[i].1@));
        kept_headers_are_in_one_form(aliases, entries, name);
    }
}

/// Conditions whose headers were sorted out of a list of entries, and that use no
/// aliases, are in their one form already.
pub proof fn filtered_conditions_are_final(
    before: MatchConditions,
    entries: Seq<(String, String)>,
    after: MatchConditions,
)
    requires
        before.headers.wf(),
        before.from is None && before.caller is None && before.to is None && before.callee is None,
        forall|k: Seq<char>| #[trigger]
            header_text(before.headers, k) == header_after(true, entries, k),
        finalized(before, after),
    ensures
        forall|f: Field| #[trigger] after.field(f) == before.field(f),
        forall|k: Seq<char>| #[trigger]
            header_text(after.headers, k) == header_text(before.headers, k),
{
    let kept = before.headers.entries@;
    kept_entries_are_in_one_form(true, before.headers, entries);
    assert forall|f: Field| #[trigger] after.field(f) == before.field(f) by {
        one_form_stays(true, kept, f, part_with_aliases(before, f), Seq::empty());
    }
    assert forall|k: Seq<char>| #[trigger]
        header_text(after.headers, k) == header_text(before.headers, k) by {
        one_form_stays(true, kept, Field::FromUser, None, k);
    }
}

/// To put conditions into their one form twice does no more than to do it once.
pub proof fn finalizing_twice_is_finalizing_once(
    before: MatchConditions,
    once: MatchConditions,
    twice: MatchConditions,
)
    requires
        finalized(before, once),
        finalized(once, twice),
    ensures
        forall|f: Field| #[trigger] twice.field(f) == once.field(f),
        forall|k: Seq<char>| #[trigger]
            header_text(twice.headers, k) == header_text(once.headers, k),
        twice.from == once.from && twice.caller == once.caller && twice.to == once.to
            && twice.callee == once.callee,
{
    filtered_conditions_are_final(once, before.headers.entries@, twice);
}

/// To normalize rewrite rules twice does no more than to do it once.
pub proof fn normalizing_twice_is_normalizing_once(
    before: RewriteRules,
    once: RewriteRules,
    twice: RewriteRules,
)
    requires
        normalized(before, once),
        normalized(once, twice),
    ensures
        forall|f: Field| #[trigger] twice.field(f) == once.field(f),
        forall|k: Seq<char>| #[trigger]
            header_text(twice.headers, k) == header_text(once.headers, k),
{
    let kept = once.headers.entries@;
    kept_entries_are_in_one_form(false, once.headers, before.headers.entries@);
    assert forall|f: Field| #[trigger] twice.field(f) == once.field(f) by {
        one_form_stays(false, kept, f, once.field(f), Seq::empty());
    }
    assert forall|k: Seq<char>| #[trigger]
        header_text(twice.headers, k) == header_text(once.headers, k) by {
        one_form_stays(false, kept, Field::FromUser, None, k);
    }
}

proof fn names_of_parts_differ()
    ensures
        forall|aliases: bool|
            #![auto]
            key_field(aliases, "from.user"@) == Some(Field::FromUser) && key_field(
                aliases,
                "from.host"@,
            ) == Some(Field::FromHost) && key_field(aliases, "to.user"@) == Some(Field::ToUser)
                && key_field(aliases, "to.host"@) == Some(Field::ToHost) && key_field(
                aliases,
                "to.port"@,
            ) == Some(Field::ToPort) && key_field(aliases, "request.uri.user"@) == Some(
                Field::RequestUriUser,
            ) && key_field(aliases, "request.uri.host"@) == Some(Field::RequestUriHost) && key_field(
                aliases,
                "request.uri.port"@,
            ) == Some(Field::RequestUriPort),
        key_field(true, "caller"@) == Some(Field::FromUser),
        key_field(true, "from"@) == Some(Field::FromUser),
        key_field(true, "callee"@) == Some(Field::ToUser),
        key_field(true, "to"@) == Some(Field::ToUser),
        key_field(false, "caller"@) is None,
        key_field(false, "from"@) is None,
        key_field(false, "callee"@) is None,
        key_field(false, "to"@) is None,
{
    reveal_strlit("from.user");
    reveal_strlit("caller");
    reveal_strlit("from");
    reveal_strlit("from.host");
    reveal_strlit("to.user");
    reveal_strlit("callee");
    reveal_strlit("to");
    reveal_strlit("to.host");
    reveal_strlit("to.port");
    reveal_strlit("request.uri.user");
    reveal_strlit("request.uri.host");
    reveal_strlit("request.uri.port");
    assert("from.user"@.len() == 9);
    assert("caller"@.len() == 6);
    assert("from"@.len() == 4);
    assert("from.host"@.len() == 9);
    assert("to.user"@.len() == 7);
    assert("callee"@.len() == 6);
    assert("to"@.len() == 2);
    assert("to.host"@.len() == 7);
    assert("to.port"@.len() == 7);
    assert("request.uri.user"@.len() == 16);
    assert("request.uri.host"@.len() == 16);
    assert("request.uri.port"@.len() == 16);
    assert("from.user"@[5] == 'u');
    assert("from.host"@[5] == 'h');
    assert("caller"@[5] == 'r');
    assert("callee"@[5] == 'e');
    assert("to.user"@[3] == 'u');
    assert("to.host"@[3] == 'h');
    assert("to.port"@[3] == 'p');
    assert("request.uri.user"@[12] == 'u');
    assert("request.uri.host"@[12] == 'h');
    assert("request.uri.port"@[12] == 'p');
}

/// Each name of a part sets the part of that name, in every spelling, and leaves all the
/// others as they are: a condition on `to.user`, which may also be called `callee` or
/// `to`, is one on the user that is called, and so on for every part.
pub proof fn condition_sets_the_part_of_its_name(
    before: MatchConditions,
    after: MatchConditions,
    key: Seq<char>,
    value: Seq<char>,
)
    requires
        forall|f: Field| #[trigger]
            after.field(f) == if entry_field(true, key) == Some(f) {
                set_to(before.field(f), value)
            } else {
                before.field(f)
            },
        same_rest(after, before),
        text::trimmed(value).len() > 0,
    ensures
        after.headers == before.headers,
        after.from == before.from && after.caller == before.caller,
        after.to == before.to && after.callee == before.callee,
        ({
            let name = canonical_key(text::trimmed(key));
            let set = Some(text::trimmed(value));
            let o = |t: Option<String>| text::opt_text(t);
            &&& o(after.from_user) == (if name == "from.user"@ || name == "caller"@ || name == "from"@ {
                set
            } else {
                o(before.from_user)
            })
            &&& o(after.to_user) == (if name == "to.user"@ || name == "callee"@ || name == "to"@ {
                set
            } else {
                o(before.to_user)
            })
            &&& o(after.from_host) == (if name == "from.host"@ { set } else { o(before.from_host) })
            &&& o(after.to_host) == (if name == "to.host"@ { set } else { o(before.to_host) })
            &&& o(after.to_port) == (if name == "to.port"@ { set } else { o(before.to_port) })
            &&& o(after.request_uri_user) == (if name == "request.uri.user"@ {
                set
            } else {
                o(before.request_uri_user)
            })
            &&& o(after.request_uri_host) == (if name == "request.uri.host"@ {
                set
            } else {
                o(before.request_uri_host)
            })
            &&& o(after.request_uri_port) == (if name == "request.uri.port"@ {
                set
            } else {
                o(before.request_uri_port)
            })
        }),
{
    names_of_parts_differ();
    canonical_name_is_one_spelling(text::trimmed(key));
    text::trimmed_is_trimmed(key);
    reveal_strlit("from.user");
    reveal_strlit("caller");
    reveal_strlit("from");
    reveal_strlit("from.host");
    reveal_strlit("to.user");
    reveal_strlit("callee");
    reveal_strlit("to");
    reveal_strlit("to.host");
    reveal_strlit("to.port");
    reveal_strlit("request.uri.user");
    reveal_strlit("request.uri.host");
    reveal_strlit("request.uri.port");
    assert("from.user"@.len() == 9);
    assert("caller"@.len() == 6);
    assert("from"@.len() == 4);
    assert("from.host"@.len() == 9);
    assert("to.user"@.len() == 7);
    assert("callee"@.len() == 6);
    assert("to"@.len() == 2);
    assert("to.host"@.len() == 7);
    assert("to.port"@.len() == 7);
    assert("request.uri.user"@.len() == 16);
    assert("request.uri.host"@.len() == 16);
    assert("request.uri.port"@.len() == 16);
    assert("from.user"@[5] == 'u');
    assert("from.host"@[5] == 'h');
    assert("caller"@[5] == 'r');
    assert("callee"@[5] == 'e');
    assert("to.user"@[3] == 'u');
    assert("to.host"@[3] == 'h');
    assert("to.port"@[3] == 'p');
    assert("request.uri.user"@[12] == 'u');
    assert("request.uri.host"@[12] == 'h');
    assert("request.uri.port"@[12] == 'p');
    assert(after.field(Field::FromUser) == text::opt_text(after.from_user));
    assert(after.field(Field::FromHost) == text::opt_text(after.from_host));
    assert(after.field(Field::ToUser) == text::opt_text(after.to_user));
    assert(after.field(Field::ToHost) == text::opt_text(after.to_host));
    assert(after.field(Field::ToPort) == text::opt_text(after.to_port));
    assert(after.field(Field::RequestUriUser) == text::opt_text(after.request_uri_user));
    assert(after.field(Field::RequestUriHost) == text::opt_text(after.request_uri_host));
    assert(after.field(Field::RequestUriPort) == text::opt_text(after.request_uri_port));
}

/// A rewrite of a part is under the name of that part alone, and changes no other. What
/// conditions know as other names for the two users are headers to a rewrite.
pub proof fn rewrite_sets_the_part_of_its_name(
    before: RewriteRules,
    after: RewriteRules,
    key: Seq<char>,
    value: Seq<char>,
)
    requires
        forall|f: Field| #[trigger]
            after.field(f) == if entry_field(false, key) == Some(f) {
                set_to(before.field(f), value)
            } else {
                before.field(f)
            },
        text::trimmed(value).len() > 0,
    ensures
        ({
            let name = canonical_key(text::trimmed(key));
            let set = Some(text::trimmed(value));
            let o = |t: Option<String>| text::opt_text(t);
            &&& o(after.from_user) == (if name == "from.user"@ { set } else { o(before.from_user) })
            &&& o(after.to_user) == (if name == "to.user"@ { set } else { o(before.to_user) })
            &&& o(after.from_host) == (if name == "from.host"@ { set } else { o(before.from_host) })
            &&& o(after.to_host) == (if name == "to.host"@ { set } else { o(before.to_host) })
            &&& o(after.to_port) == (if name == "to.port"@ { set } else { o(before.to_port) })
            &&& o(after.request_uri_user) == (if name == "request.uri.user"@ {
                set
            } else {
                o(before.request_uri_user)
            })
            &&& o(after.request_uri_host) == (if name == "request.uri.host"@ {
                set
            } else {
                o(before.request_uri_host)
            })
            &&& o(after.request_uri_port) == (if name == "request.uri.port"@ {
                set
            } else {
                o(before.request_uri_port)
            })
            &&& name == "caller"@ || name == "callee"@ || name == "from"@ || name == "to"@
                ==> names_header(false, key)
        }),
{
    names_of_parts_differ();
    canonical_name_is_one_spelling(text::trimmed(key));
    text::trimmed_is_trimmed(key);
    reveal_strlit("from.user");
    reveal_strlit("caller");
    reveal_strlit("from");
    reveal_strlit("from.host");
    reveal_strlit("to.user");
    reveal_strlit("callee");
    reveal_strlit("to");
    reveal_strlit("to.host");
    reveal_strlit("to.port");
    reveal_strlit("request.uri.user");
    reveal_strlit("request.uri.host");
    reveal_strlit("request.uri.port");
    assert("from.user"@.len() == 9);
    assert("caller"@.len() == 6);
    assert("from"@.len() == 4);
    assert("from.host"@.len() == 9);
    assert("to.user"@.len() == 7);
    assert("callee"@.len() == 6);
    assert("to"@.len() == 2);
    assert("to.host"@.len() == 7);
    assert("to.port"@.len() == 7);
    assert("request.uri.user"@.len() == 16);
    assert("request.uri.host"@.len() == 16);
    assert("request.uri.port"@.len() == 16);
    assert("from.user"@[5] == 'u');
    assert("from.host"@[5] == 'h');
    assert("caller"@[5] == 'r');
    assert("callee"@[5] == 'e');
    assert("to.user"@[3] == 'u');
    assert("to.host"@[3] == 'h');
    assert("to.port"@[3] == 'p');
    assert("request.uri.user"@[12] == 'u');
    assert("request.uri.host"@[12] == 'h');
    assert("request.uri.port"@[12] == 'p');
    assert(after.field(Field::FromUser) == text::opt_text(after.from_user));
    assert(after.field(Field::FromHost) == text::opt_text(after.from_host));
    assert(after.field(Field::ToUser) == text::opt_text(after.to_user));
    assert(after.field(Field::ToHost) == text::opt_text(after.to_host));
    assert(after.field(Field::ToPort) == text::opt_text(after.to_port));
    assert(after.field(Field::RequestUriUser) == text::opt_text(after.request_uri_user));
    assert(after.field(Field::RequestUriHost) == text::opt_text(after.request_uri_host));
    assert(after.field(Field::RequestUriPort) == text::opt_text(after.request_uri_port));
}

/// Different parts have different names, and a name with a part is no header's. A name
/// with a part speaks of the same part to conditions and, where it speaks of one to
/// rewrites, to those.
pub proof fn parts_are_told_apart_by_name(a: Seq<char>, b: Seq<char>, aliases: bool)
    ensures
        entry_field(aliases, a) is Some && entry_field(aliases, b) is Some && entry_field(aliases, a)
            != entry_field(aliases, b) ==> canonical_key(text::trimmed(a)) != canonical_key(
            text::trimmed(b),
        ),
        names_header(aliases, a) ==> entry_field(aliases, a) is None && text::trimmed(a).len() > 0,
        entry_field(aliases, a) is Some ==> !names_header(aliases, a),
        entry_field(false, a) is Some ==> entry_field(true, a) == entry_field(false, a),
        text::trimmed(a).len() > 0 && entry_field(aliases, a) is None ==> names_header(aliases, a),
{
    names_of_parts_differ();
}

/// A name in its one spelling has no capital, underscore or hyphen left in it, and is as
/// long as the name without blanks around it; every other character stays what it was.
pub proof fn canonical_name_is_one_spelling(raw: Seq<char>)
    ensures
        canonical_key(raw).len() == text::trimmed(raw).len(),
        forall|i: int|
            0 <= i < text::trimmed(raw).len() ==> {
                let was = text::trimmed(raw)[i];
                let is = #[trigger] canonical_key(raw)[i];
                &&& is != '_' && is != '-'
                &&& !('A' <= is <= 'Z')
                &&& is == '.' <==> was == '.' || was == '_' || was == '-'
                &&& is != '.' && !('A' <= was <= 'Z') ==> is == was
                &&& 'A' <= was <= 'Z' ==> is as u32 == was as u32 + 32
            },
{
    assert forall|i: int| 0 <= i < text::trimmed(raw).len() implies {
        let was = text::trimmed(raw)[i];
        let is = #[trigger] canonical_key(raw)[i];
        &&& is != '_' && is != '-'
        &&& !('A' <= is <= 'Z')
        &&& is == '.' <==> was == '.' || was == '_' || was == '-'
        &&& is != '.' && !('A' <= was <= 'Z') ==> is == was
        &&& 'A' <= was <= 'Z' ==> is as u32 == was as u32 + 32
    } by {
        let was = text::trimmed(raw)[i];
        text::lower_char_is_the_small_letter(was);
        assert(text::ascii_lower(text::trimmed(raw))[i] == text::lower_char(was));
    }
}

/// A blank value sets nothing; any other is set without the blanks around it, whatever
/// was there.
pub proof fn blank_value_sets_nothing(old_value: Option<Seq<char>>, value: Seq<char>)
    ensures
        text::trimmed(value).len() == 0 ==> set_to(old_value, value) == old_value,
        text::trimmed(value).len() > 0 ==> set_to(old_value, value) == Some(text::trimmed(value)),
        set_to(set_to(old_value, value), value) == set_to(old_value, value),
{
}

/// Of several entries for a part the last that is not blank counts: one more entry sets
/// the part that it names, and leaves every other part and header to those before it.
pub proof fn last_entry_of_a_part_counts(
    aliases: bool,
    entries: Seq<(String, String)>,
    key: String,
    value: String,
    f: Field,
    name: Seq<char>,
    before: Option<Seq<char>>,
)
    ensures
        entry_field(aliases, key@) == Some(f) && text::trimmed(value@).len() > 0 ==> part_after(
            aliases,
            entries.push((key, value)),
            f,
            before,
        ) == Some(text::trimmed(value@)),
        entry_field(aliases, key@) != Some(f) || text::trimmed(value@).len() == 0 ==> part_after(
            aliases,
            entries.push((key, value)),
            f,
            before,
        ) == part_after(aliases, entries, f, before),
        names_header(aliases, key@) && text::trimmed(value@).len() > 0 ==> header_after(
            aliases,
            entries.push((key, value)),
            text::trimmed(key@),
        ) == Some(text::trimmed(value@)),
        !names_header(aliases, key@) || text::trimmed(value@).len() == 0 || name != text::trimmed(key@)
            ==> header_after(aliases, entries.push((key, value)), name) == header_after(
            aliases,
            entries,
            name,
        ),
        part_after(aliases, Seq::empty(), f, before) == before,
        header_after(aliases, Seq::empty(), name) is None,
{
    assert(entries.push((key, value)).drop_last() =~= entries);
    assert(entries.push((key, value)).last() == (key, value));
}

/// The caller's aliases end up in the caller's user and the callee's in the callee's. Of
/// two aliases for one user the longer word counts, and no other part has aliases.
pub proof fn aliases_stand_for_the_users(conditions: MatchConditions)
    ensures
        conditions.caller matches Some(v) && text::trimmed(v@).len() > 0 ==> part_with_aliases(
            conditions,
            Field::FromUser,
        ) == Some(text::trimmed(conditions.caller->0@)),
        conditions.callee matches Some(v) && text::trimmed(v@).len() > 0 ==> part_with_aliases(
            conditions,
            Field::ToUser,
        ) == Some(text::trimmed(conditions.callee->0@)),
        conditions.caller is None && (conditions.from matches Some(v) && text::trimmed(v@).len() > 0)
            ==> part_with_aliases(conditions, Field::FromUser) == Some(
            text::trimmed(conditions.from->0@),
        ),
        conditions.callee is None && (conditions.to matches Some(v) && text::trimmed(v@).len() > 0)
            ==> part_with_aliases(conditions, Field::ToUser) == Some(
            text::trimmed(conditions.to->0@),
        ),
        conditions.caller is None && conditions.from is None ==> part_with_aliases(
            conditions,
            Field::FromUser,
        ) == text::opt_text(conditions.from_user),
        conditions.callee is None && conditions.to is None ==> part_with_aliases(
            conditions,
            Field::ToUser,
        ) == text::opt_text(conditions.to_user),
        part_with_aliases(conditions, Field::FromHost) == text::opt_text(conditions.from_host),
        part_with_aliases(conditions, Field::ToHost) == text::opt_text(conditions.to_host),
        part_with_aliases(conditions, Field::ToPort) == text::opt_text(conditions.to_port),
        part_with_aliases(conditions, Field::RequestUriUser) == text::opt_text(
            conditions.request_uri_user,
        ),
        part_with_aliases(conditions, Field::RequestUriHost) == text::opt_text(
            conditions.request_uri_host,
        ),
        part_with_aliases(conditions, Field::RequestUriPort) == text::opt_text(
            conditions.request_uri_port,
        ),
{
}

/// Conditions without headers keep every part once they are in their one form, apart from
/// the aliases, which are gone from their own places; and no header comes up.
pub proof fn final_conditions_have_no_aliases(before: MatchConditions, after: MatchConditions)
    requires
        finalized(before, after),
        before.headers.entries@.len() == 0,
    ensures
        after.from is None && after.caller is None && after.to is None && after.callee is None,
        before.callee matches Some(v) && text::trimmed(v@).len() > 0 ==> text::opt_text(after.to_user)
            == Some(text::trimmed(before.callee->0@)),
        before.caller matches Some(v) && text::trimmed(v@).len() > 0 ==> text::opt_text(
            after.from_user,
        ) == Some(text::trimmed(before.caller->0@)),
        text::opt_text(after.to_host) == text::opt_text(before.to_host),
        text::opt_text(after.from_host) == text::opt_text(before.from_host),
        text::opt_text(after.to_port) == text::opt_text(before.to_port),
        text::opt_text(after.request_uri_user) == text::opt_text(before.request_uri_user),
        text::opt_text(after.request_uri_host) == text::opt_text(before.request_uri_host),
        text::opt_text(after.request_uri_port) == text::opt_text(before.request_uri_port),
        forall|k: Seq<char>| #[trigger] header_text(after.headers, k) is None,
{
    aliases_stand_for_the_users(before);
    assert(after.field(Field::ToUser) == text::opt_text(after.to_user));
    assert(after.field(Field::FromUser) == text::opt_text(after.from_user));
    assert(after.field(Field::ToHost) == text::opt_text(after.to_host));
    assert(after.field(Field::FromHost) == text::opt_text(after.from_host));
    assert(after.field(Field::ToPort) == text::opt_text(after.to_port));
    assert(after.field(Field::RequestUriUser) == text::opt_text(after.request_uri_user));
    assert(after.field(Field::RequestUriHost) == text::opt_text(after.request_uri_host));
    assert(after.field(Field::RequestUriPort) == text::opt_text(after.request_uri_port));
}

/// A name speaks of the part that it is the name of, however it is spelled.
pub proof fn name_speaks_of_its_part(key: Seq<char>)
    ensures
        ({
            let name = canonical_key(text::trimmed(key));
            &&& name == "from.user"@ || name == "caller"@ || name == "from"@ ==> entry_field(true, key)
                == Some(Field::FromUser)
            &&& name == "to.user"@ || name == "callee"@ || name == "to"@ ==> entry_field(true, key)
                == Some(Field::ToUser)
            &&& name == "from.host"@ ==> entry_field(true, key) == Some(Field::FromHost)
            &&& name == "to.host"@ ==> entry_field(true, key) == Some(Field::ToHost)
            &&& name == "to.port"@ ==> entry_field(true, key) == Some(Field::ToPort)
            &&& name == "request.uri.user"@ ==> entry_field(true, key) == Some(Field::RequestUriUser)
            &&& name == "request.uri.host"@ ==> entry_field(true, key) == Some(Field::RequestUriHost)
            &&& name == "request.uri.port"@ ==> entry_field(true, key) == Some(Field::RequestUriPort)
        }),
{
    names_of_parts_differ();
    canonical_name_is_one_spelling(text::trimmed(key));
    text::trimmed_is_trimmed(key);
    reveal_strlit("from.user");
    reveal_strlit("caller");
    reveal_strlit("from");
    reveal_strlit("from.host");
    reveal_strlit("to.user");
    reveal_strlit("callee");
    reveal_strlit("to");
    reveal_strlit("to.host");
    reveal_strlit("to.port");
    reveal_strlit("request.uri.user");
    reveal_strlit("request.uri.host");
    reveal_strlit("request.uri.port");
    assert("from.user"@.len() == 9);
    assert("caller"@.len() == 6);
    assert("from"@.len() == 4);
    assert("from.host"@.len() == 9);
    assert("to.user"@.len() == 7);
    assert("callee"@.len() == 6);
    assert("to"@.len() == 2);
    assert("to.host"@.len() == 7);
    assert("to.port"@.len() == 7);
    assert("request.uri.user"@.len() == 16);
    assert("request.uri.host"@.len() == 16);
    assert("request.uri.port"@.len() == 16);
    assert("from.user"@[5] == 'u');
    assert("from.host"@[5] == 'h');
    assert("caller"@[5] == 'r');
    assert("callee"@[5] == 'e');
    assert("to.user"@[3] == 'u');
    assert("to.host"@[3] == 'h');
    assert("to.port"@[3] == 'p');
    assert("request.uri.user"@[12] == 'u');
    assert("request.uri.host"@[12] == 'h');
    assert("request.uri.port"@[12] == 'p');
}

/// A key that is read into conditions sets the part of its name, whatever the conditions hold
/// already, and one that names no part and no other field is left for the headers.
pub proof fn read_condition_is_on_the_part_of_its_name()
    ensures
        forall|c: &mut MatchConditions, key: &str, value: &str, r: bool| #[trigger]
            call_ensures(handle_match_key, (c, key, value), r) && text::trimmed(value@).len() > 0
                ==> {
                let name = canonical_key(text::trimmed(key@));
                let set = Some(text::trimmed(value@));
                &&& name == "from.user"@ || name == "caller"@ || name == "from"@
                    ==> text::opt_text(final(c).from_user) == set
                &&& name == "to.user"@ || name == "callee"@ || name == "to"@
                    ==> text::opt_text(final(c).to_user) == set
                &&& name == "from.host"@ ==> text::opt_text(final(c).from_host) == set
                &&& name == "to.host"@ ==> text::opt_text(final(c).to_host) == set
                &&& name == "to.port"@ ==> text::opt_text(final(c).to_port) == set
                &&& name == "request.uri.user"@ ==> text::opt_text(final(c).request_uri_user)
                    == set
                &&& name == "request.uri.host"@ ==> text::opt_text(final(c).request_uri_host)
                    == set
                &&& name == "request.uri.port"@ ==> text::opt_text(final(c).request_uri_port)
                    == set
                &&& final(c).headers == c.headers
            },
{
    assert forall|c: &mut MatchConditions, key: &str, value: &str, r: bool| #[trigger]
        call_ensures(handle_match_key, (c, key, value), r) && text::trimmed(value@).len()
            > 0 implies {
        let name = canonical_key(text::trimmed(key@));
        let set = Some(text::trimmed(value@));
        &&& name == "from.user"@ || name == "caller"@ || name == "from"@ ==> text::opt_text(
            final(c).from_user,
        ) == set
        &&& name == "to.user"@ || name == "callee"@ || name == "to"@ ==> text::opt_text(
            final(c).to_user,
        ) == set
        &&& name == "from.host"@ ==> text::opt_text(final(c).from_host) == set
        &&& name == "to.host"@ ==> text::opt_text(final(c).to_host) == set
        &&& name == "to.port"@ ==> text::opt_text(final(c).to_port) == set
        &&& name == "request.uri.user"@ ==> text::opt_text(final(c).request_uri_user) == set
        &&& name == "request.uri.host"@ ==> text::opt_text(final(c).request_uri_host) == set
        &&& name == "request.uri.port"@ ==> text::opt_text(final(c).request_uri_port) == set
        &&& final(c).headers == c.headers
    } by {
        condition_sets_the_part_of_its_name(*c, *final(c), key@, value@);
    }
}

/// A stored text is trimmed, and one of white space is none.
pub proof fn stored_text_is_trimmed(raw: String, r: Option<String>, none: Option<String>)
    requires
        call_ensures(sanitize_metadata_string, (Some(raw),), r),
        call_ensures(sanitize_metadata_string, (None,), none),
    ensures
        none is None,
        r is Some <==> text::trimmed(raw@).len() > 0,
        r is Some ==> r->0@ == text::trimmed(raw@),
{
}

} // verus!
