//! The names of plugins: what may be handed to the package manager.

use vstd::prelude::*;
use vstd::string::*;
use vstd::utf8::*;

use crate::text;

verus! {

/// The profile that the plugins belong to.
pub const PLUGIN_PROFILE: &'static str = "web";

/// The most bytes that a package and its version may take.
pub const MAX_SPEC_BYTES: usize = 214;

// ---------------------------------------------------------------------------
// Parts
// ---------------------------------------------------------------------------
/// A character that may follow the first one of a name.
pub open spec fn name_char(item: char) -> bool {
    text::is_lower(item) || text::is_digit(item) || item == '.' || item == '_' || item == '-'
        || item == '~'
}

/// A package name, or the scope or the rest of one.
pub open spec fn name_part(value: Seq<char>) -> bool {
    &&& value.len() > 0
    &&& text::is_lower(value[0])
    &&& forall|i: int| 1 <= i < value.len() ==> name_char(#[trigger] value[i])
}

/// Whether this may be a package name, or the scope or the rest of one.
pub fn is_name_part(value: &str) -> (r: bool)
    ensures
        r == name_part(value@),
{
    let items = text::chars_of(value);
    if items.len() == 0 || !text::lower(items[0]) {
        return false;
    }
    let mut i: usize = 1;
    while i < items.len()
        invariant
            1 <= i <= items@.len(),
            items@ == value@,
            forall|j: int| 1 <= j < i ==> name_char(#[trigger] value@[j]),
        decreases items@.len() - i,
    {
        let item = items[i];
        if !(text::lower(item) || text::digit(item) || item == '.' || item == '_' || item == '-'
            || item == '~') {
            assert(!name_char(value@[i as int]));
            return false;
        }
        i += 1;
    }
    true
}

/// A character that may follow the first one of a version.
pub open spec fn tag_char(item: char) -> bool {
    text::is_alnum(item) || item == '.' || item == '_' || item == '-' || item == '+' || item == '~'
}

/// A version, or the name of one.
pub open spec fn version_tag(value: Seq<char>) -> bool {
    &&& value.len() > 0
    &&& text::is_alnum(value[0])
    &&& forall|i: int| 1 <= i < value.len() ==> tag_char(#[trigger] value[i])
}

/// Whether this may be a version, or the name of one.
pub fn is_version_tag(value: &str) -> (r: bool)
    ensures
        r == version_tag(value@),
{
    let items = text::chars_of(value);
    if items.len() == 0 || !text::alnum(items[0]) {
        return false;
    }
    let mut i: usize = 1;
    while i < items.len()
        invariant
            1 <= i <= items@.len(),
            items@ == value@,
            forall|j: int| 1 <= j < i ==> tag_char(#[trigger] value@[j]),
        decreases items@.len() - i,
    {
        let item = items[i];
        if !(text::alnum(item) || item == '.' || item == '_' || item == '-' || item == '+' || item
            == '~') {
            assert(!tag_char(value@[i as int]));
            return false;
        }
        i += 1;
    }
    true
}

/// A package name, with a scope or without one.
pub open spec fn package_name(name: Seq<char>) -> bool {
    if name.len() > 0 && name[0] == '@' {
        match text::cut(name.drop_first(), "/"@) {
            Some(halves) => name_part(halves.0) && name_part(halves.1),
            None => false,
        }
    } else {
        name_part(name)
    }
}

/// Whether this may be a package name.
pub fn is_package_name(name: &str) -> (r: bool)
    ensures
        r == package_name(name@),
{
    let items = text::chars_of(name);
    if items.len() > 0 && items[0] == '@' {
        let rest = text::text_of(&items, 1, items.len());
        assert(rest@ =~= name@.drop_first());
        match text::cut_text(rest.as_str(), "/") {
            Some(halves) => is_name_part(halves.0.as_str()) && is_name_part(halves.1.as_str()),
            None => false,
        }
    } else {
        is_name_part(name)
    }
}

/// The name and the version of which a package spec is made; the `@` of a
/// scope parts nothing.
pub open spec fn name_and_version(spec: Seq<char>) -> Result<
    (Seq<char>, Option<Seq<char>>),
    Seq<char>,
> {
    if spec.len() > 0 && spec[0] == '@' {
        match text::find(spec, "/"@) {
            None => Err("scoped 包名需要 @scope/name。"@),
            Some(slash) => match text::cut(spec.skip(slash + 1), "@"@) {
                Some(halves) => Ok((spec.take(slash + 1 + halves.0.len()), Some(halves.1))),
                None => Ok((spec, None)),
            },
        }
    } else {
        match text::cut(spec, "@"@) {
            Some(halves) => Ok((halves.0, Some(halves.1))),
            None => Ok((spec, None)),
        }
    }
}

/// What a split says.
pub open spec fn split_view(r: Result<(String, Option<String>), String>) -> Result<
    (Seq<char>, Option<Seq<char>>),
    Seq<char>,
> {
    match r {
        Ok(halves) => Ok((halves.0@, text::text_opt(halves.1))),
        Err(message) => Err(message@),
    }
}

/// The name and the version of which a package spec is made.
pub fn split_name_and_version(spec: &str) -> (r: Result<(String, Option<String>), String>)
    ensures
        split_view(r) == name_and_version(spec@),
{
    let items = text::chars_of(spec);
    if items.len() > 0 && items[0] == '@' {
        let mark = text::chars_of("/");
        proof {
            reveal_strlit("/");
            text::find_from_is_first(spec@, "/"@, 0);
        }
        let slash = match text::position(&items, &mark, 0) {
            Some(at) => at,
            None => {
                return Err("scoped 包名需要 @scope/name。".to_string());
            },
        };
        let rest = text::text_of(&items, slash + 1, items.len());
        assert(rest@ =~= spec@.skip(slash + 1));
        proof {
            reveal_strlit("@");
            text::find_from_is_first(rest@, "@"@, 0);
        }
        match text::cut_text(rest.as_str(), "@") {
            Some(halves) => {
                let lead = text::text_of(&items, 0, slash + 1);
                let name = text::join2(lead.as_str(), halves.0.as_str());
                assert(name@ =~= spec@.take(slash + 1 + halves.0@.len()));
                Ok((name, Some(halves.1)))
            },
            None => Ok((spec.to_owned(), None)),
        }
    } else {
        match text::cut_text(spec, "@") {
            Some(halves) => Ok((halves.0, Some(halves.1))),
            None => Ok((spec.to_owned(), None)),
        }
    }
}

// ---------------------------------------------------------------------------
// Specs
// ---------------------------------------------------------------------------
/// The text holds white space.
pub open spec fn has_white(content: Seq<char>) -> bool {
    exists|i: int| 0 <= i < content.len() && text::is_white(#[trigger] content[i])
}

fn holds_white(content: &str) -> (r: bool)
    ensures
        r == has_white(content@),
{
    let items = text::chars_of(content);
    let mut i: usize = 0;
    while i < items.len()
        invariant
            i <= items@.len(),
            items@ == content@,
            forall|j: int| 0 <= j < i ==> !text::is_white(#[trigger] content@[j]),
        decreases items@.len() - i,
    {
        if text::white(items[i]) {
            assert(text::is_white(content@[i as int]));
            return true;
        }
        i += 1;
    }
    false
}

/// The text is no package spec but a path, an address or a command line.
pub open spec fn foreign(spec: Seq<char>) -> bool {
    has_white(spec) || spec.contains('\\') || spec.contains(':') || text::holds(spec, ".."@)
        || text::holds(spec, "//"@)
}

/// What is said of a text that is no package spec.
pub open spec fn only_names() -> Seq<char> {
    "只支持 npm 包名，例如 dsh-recall 或 @anionex/dsh-vision-toolkit。"@
}

/// The package spec that a text is, or why it is none.
pub open spec fn parsed(raw: Seq<char>) -> Result<Seq<char>, Seq<char>> {
    let spec = text::trimmed(raw);
    if spec.len() == 0 {
        Err("请输入 npm 包名。"@)
    } else if text::utf8_len(spec) > MAX_SPEC_BYTES {
        Err("包名过长。"@)
    } else if foreign(spec) {
        Err(only_names())
    } else {
        match name_and_version(spec) {
            Err(message) => Err(message),
            Ok(halves) => if !package_name(halves.0) {
                Err(only_names())
            } else {
                match halves.1 {
                    Some(version) => if version_tag(version) {
                        Ok(spec)
                    } else {
                        Err("版本号无效。"@)
                    },
                    None => Ok(spec),
                }
            },
        }
    }
}

/// The name in the package spec that a text is, or why it is none.
pub open spec fn name_of(raw: Seq<char>) -> Result<Seq<char>, Seq<char>> {
    match parsed(raw) {
        Err(message) => Err(message),
        Ok(spec) => match name_and_version(spec) {
            Err(message) => Err(message),
            Ok(halves) => Ok(halves.0),
        },
    }
}

/// The package spec that a text is, or why it is none.
pub fn parse_registry_spec(raw: &str) -> (r: Result<String, String>)
    ensures
        text::result_view(r) == parsed(raw@),
{
    let spec = text::trim(raw);
    if spec.is_empty() {
        return Err("请输入 npm 包名。".to_string());
    }
    if text::byte_len(spec) > MAX_SPEC_BYTES {
        return Err("包名过长。".to_string());
    }
    let only = "只支持 npm 包名，例如 dsh-recall 或 @anionex/dsh-vision-toolkit。";
    if holds_white(spec) || text::contains_char(spec, '\\') || text::contains_char(spec, ':')
        || text::contains(spec, "..") || text::contains(spec, "//") {
        return Err(only.to_string());
    }
    match split_name_and_version(spec) {
        Err(message) => Err(message),
        Ok(halves) => {
            if !is_package_name(halves.0.as_str()) {
                return Err(only.to_string());
            }
            match &halves.1 {
                Some(version) => {
                    if !is_version_tag(version.as_str()) {
                        return Err("版本号无效。".to_string());
                    }
                },
                None => {},
            }
            Ok(spec.to_owned())
        },
    }
}

/// The name in the package spec that a text is, or why it is none.
pub fn registry_name(raw: &str) -> (r: Result<String, String>)
    ensures
        text::result_view(r) == name_of(raw@),
{
    match parse_registry_spec(raw) {
        Err(message) => Err(message),
        Ok(spec) => match split_name_and_version(spec.as_str()) {
            Err(message) => Err(message),
            Ok(halves) => Ok(halves.0),
        },
    }
}

// ---------------------------------------------------------------------------
// Command lines
// ---------------------------------------------------------------------------
/// What the program is called with, to act on a plugin.
pub open spec fn plugin_command(action: Seq<char>, spec: Seq<char>) -> Seq<Seq<char>> {
    seq!["plugin"@, "--profile"@, PLUGIN_PROFILE@, action, spec]
}

fn plugin_args(action: &str, spec: &str) -> (r: Vec<String>)
    ensures
        text::texts(r@) == plugin_command(action@, spec@),
{
    let mut out: Vec<String> = Vec::new();
    out.push("plugin".to_string());
    out.push("--profile".to_string());
    out.push(PLUGIN_PROFILE.to_string());
    out.push(action.to_owned());
    out.push(spec.to_owned());
    assert(text::texts(out@) =~= plugin_command(action@, spec@));
    out
}

/// What the program is called with, to add a plugin.
pub fn plugin_add_args(spec: &str) -> (r: Vec<String>)
    ensures
        text::texts(r@) == plugin_command("add"@, spec@),
{
    plugin_args("add", spec)
}

/// What the program is called with, to remove a plugin.
pub fn plugin_remove_args(spec: &str) -> (r: Vec<String>)
    ensures
        text::texts(r@) == plugin_command("remove"@, spec@),
{
    plugin_args("remove", spec)
}

// ---------------------------------------------------------------------------
// Laws
// ---------------------------------------------------------------------------
/// A package spec that is accepted is accepted as it is, and again.
pub proof fn accepted_specs_are_fixed(raw: Seq<char>)
    requires
        parsed(raw) is Ok,
    ensures
        parsed(raw)->Ok_0 == text::trimmed(raw),
        parsed(parsed(raw)->Ok_0) == parsed(raw),
{
    text::trimmed_is_tight(raw);
}

/// A package spec that is accepted can be taken neither for an option nor for
/// a path: it starts with a small letter or a scope, and leads nowhere.
pub proof fn accepted_specs_are_plain(raw: Seq<char>)
    requires
        parsed(raw) is Ok,
    ensures
        ({
            let spec = parsed(raw)->Ok_0;
            &&& spec.len() > 0
            &&& text::is_lower(spec[0]) || spec[0] == '@'
            &&& !has_white(spec)
            &&& !spec.contains('\\')
            &&& !spec.contains(':')
            &&& !text::holds(spec, ".."@)
            &&& !text::holds(spec, "//"@)
        }),
{
    let spec = parsed(raw)->Ok_0;
    reveal_strlit("@");
    text::find_from_is_first(spec, "@"@, 0);
}

/// The name of an accepted package spec is an accepted package spec itself,
/// and its own name.
pub proof fn names_are_specs(raw: Seq<char>)
    requires
        name_of(raw) is Ok,
    ensures
        parsed(name_of(raw)->Ok_0) == Ok::<Seq<char>, Seq<char>>(name_of(raw)->Ok_0),
        name_of(name_of(raw)->Ok_0) == name_of(raw),
{
    let spec = parsed(raw)->Ok_0;
    let name = name_of(raw)->Ok_0;
    name_is_a_prefix(spec);
    let size = name.len() as int;
    start_takes_no_more_bytes(spec, size);
    start_is_not_foreign(spec, size);
    text_without_white_is_trimmed(name);
}

/// The name in a spec is its start, and has no version of its own.
proof fn name_is_a_prefix(spec: Seq<char>)
    requires
        name_and_version(spec) is Ok,
    ensures
        ({
            let name = name_and_version(spec)->Ok_0.0;
            &&& name.len() <= spec.len()
            &&& name == spec.take(name.len() as int)
            &&& name_and_version(name) == Ok::<(Seq<char>, Option<Seq<char>>), Seq<char>>(
                (name, None),
            )
        }),
{
    let name = name_and_version(spec)->Ok_0.0;
    reveal_strlit("/");
    reveal_strlit("@");
    if spec.len() > 0 && spec[0] == '@' {
        let slash = text::find(spec, "/"@)->0;
        text::find_from_is_first(spec, "/"@, 0);
        let rest = spec.skip(slash + 1);
        text::find_from_is_first(rest, "@"@, 0);
        match text::find(rest, "@"@) {
            Some(at) => {
                let end = slash + 1 + at;
                assert(name =~= spec.take(end));
                text::find_from_is_first(name, "/"@, 0);
                assert(name.subrange(slash, slash + 1) =~= spec.subrange(slash, slash + 1));
                assert(text::occurs_at(name, "/"@, slash));
                let first = text::find(name, "/"@)->0;
                assert(name.subrange(first, first + 1) =~= spec.subrange(first, first + 1));
                assert(text::occurs_at(spec, "/"@, first));
                assert(first == slash);
                assert(name.skip(slash + 1) =~= rest.take(at));
                start_before_the_mark(rest, "@"@, at);
            },
            None => {
                assert(name =~= spec.take(spec.len() as int));
            },
        }
    } else {
        text::find_from_is_first(spec, "@"@, 0);
        match text::find(spec, "@"@) {
            Some(at) => {
                start_before_the_mark(spec, "@"@, at);
            },
            None => {
                assert(name =~= spec.take(spec.len() as int));
            },
        }
    }
}

/// Before the first mark there is none.
proof fn start_before_the_mark(content: Seq<char>, mark: Seq<char>, at: int)
    requires
        mark.len() > 0,
        text::find(content, mark) == Some(at),
    ensures
        text::find(content.take(at), mark) is None,
{
    text::find_from_is_first(content, mark, 0);
    text::find_from_is_first(content.take(at), mark, 0);
    if let Some(inner) = text::find(content.take(at), mark) {
        assert(content.take(at).subrange(inner, inner + mark.len()) =~= content.subrange(
            inner,
            inner + mark.len(),
        ));
        assert(text::occurs_at(content, mark, inner));
    }
}

proof fn start_takes_no_more_bytes(content: Seq<char>, size: int)
    requires
        0 <= size <= content.len(),
    ensures
        text::utf8_len(content.take(size)) <= text::utf8_len(content),
    decreases size,
{
    if size > 0 {
        start_takes_no_more_bytes(content.drop_first(), size - 1);
        assert(content.take(size).drop_first() =~= content.drop_first().take(size - 1));
    }
}

proof fn start_is_not_foreign(spec: Seq<char>, size: int)
    requires
        0 <= size <= spec.len(),
        !foreign(spec),
    ensures
        !foreign(spec.take(size)),
{
    let start = spec.take(size);
    assert(forall|i: int| 0 <= i < start.len() ==> #[trigger] start[i] == spec[i]);
    if has_white(start) {
        let i = choose|i: int| 0 <= i < start.len() && text::is_white(#[trigger] start[i]);
        assert(text::is_white(spec[i]));
    }
    if text::holds(start, ".."@) {
        start_holds_no_more(spec, size, ".."@);
    }
    if text::holds(start, "//"@) {
        start_holds_no_more(spec, size, "//"@);
    }
}

proof fn start_holds_no_more(content: Seq<char>, size: int, part: Seq<char>)
    requires
        0 <= size <= content.len(),
        text::holds(content.take(size), part),
    ensures
        text::holds(content, part),
{
    let start = content.take(size);
    let at = choose|at: int| text::occurs_at(start, part, at);
    assert(start.subrange(at, at + part.len()) =~= content.subrange(at, at + part.len()));
    assert(text::occurs_at(content, part, at));
}

proof fn text_without_white_is_trimmed(content: Seq<char>)
    requires
        !has_white(content),
    ensures
        text::trimmed(content) == content,
{
    if content.len() > 0 {
        assert(!text::is_white(content[0]));
        assert(!text::is_white(content[content.len() - 1]));
    }
}

/// A part of a package name begins with a small letter and goes on with small
/// letters, digits, `.`, `_`, `-` and `~`; a version begins with a letter or a
/// digit and goes on with these, `.`, `_`, `-`, `+` and `~`. Everything of that
/// form is one.
pub proof fn parts_are_made_of_these(value: Seq<char>)
    ensures
        name_part(value) <==> {
            &&& value.len() > 0
            &&& 97 <= value[0] as int <= 122
            &&& forall|i: int|
                1 <= i < value.len() ==> 97 <= #[trigger] value[i] as int <= 122 || 48
                    <= value[i] as int <= 57 || value[i] == '.' || value[i] == '_' || value[i]
                    == '-' || value[i] == '~'
        },
        version_tag(value) <==> {
            &&& value.len() > 0
            &&& text::is_alnum(value[0])
            &&& forall|i: int|
                1 <= i < value.len() ==> text::is_alnum(#[trigger] value[i]) || value[i] == '.'
                    || value[i] == '_' || value[i] == '-' || value[i] == '+' || value[i] == '~'
        },
{
    if value.len() > 0 && 97 <= value[0] as int <= 122 && (forall|i: int|
        1 <= i < value.len() ==> 97 <= #[trigger] value[i] as int <= 122 || 48 <= value[i] as int
            <= 57 || value[i] == '.' || value[i] == '_' || value[i] == '-' || value[i] == '~') {
        assert forall|i: int| 1 <= i < value.len() implies name_char(#[trigger] value[i]) by {
            assert(97 <= value[i] as int <= 122 || 48 <= value[i] as int <= 57 || value[i] == '.'
                || value[i] == '_' || value[i] == '-' || value[i] == '~');
        }
    }
    if name_part(value) {
        assert forall|i: int| 1 <= i < value.len() implies 97 <= #[trigger] value[i] as int <= 122
            || 48 <= value[i] as int <= 57 || value[i] == '.' || value[i] == '_' || value[i] == '-'
            || value[i] == '~' by {
            assert(name_char(value[i]));
        }
    }
    if value.len() > 0 && text::is_alnum(value[0]) && (forall|i: int|
        1 <= i < value.len() ==> text::is_alnum(#[trigger] value[i]) || value[i] == '.' || value[i]
            == '_' || value[i] == '-' || value[i] == '+' || value[i] == '~') {
        assert forall|i: int| 1 <= i < value.len() implies tag_char(#[trigger] value[i]) by {
            assert(text::is_alnum(value[i]) || value[i] == '.' || value[i] == '_' || value[i] == '-'
                || value[i] == '+' || value[i] == '~');
        }
    }
    if version_tag(value) {
        assert forall|i: int| 1 <= i < value.len() implies text::is_alnum(#[trigger] value[i])
            || value[i] == '.' || value[i] == '_' || value[i] == '-' || value[i] == '+' || value[i]
            == '~' by {
            assert(tag_char(value[i]));
        }
    }
}

/// A mark of one character is found at its first occurrence.
proof fn mark_is_found_first(head: Seq<char>, mark: char, tail: Seq<char>)
    requires
        !head.contains(mark),
    ensures
        text::find(head + seq![mark] + tail, seq![mark]) == Some(head.len() as int),
        text::cut(head + seq![mark] + tail, seq![mark]) == Some((head, tail)),
        text::find(head, seq![mark]) is None,
        text::cut(head, seq![mark]) is None,
{
    let all = head + seq![mark] + tail;
    let sep = seq![mark];
    let end = head.len() as int;
    text::find_from_is_first(all, sep, 0);
    text::find_from_is_first(head, sep, 0);
    assert(all.subrange(end, end + 1) =~= sep);
    assert(text::occurs_at(all, sep, end));
    assert forall|j: int| 0 <= j < end implies !text::occurs_at(all, sep, j) by {
        if text::occurs_at(all, sep, j) {
            assert(all.subrange(j, j + 1)[0] == head[j]);
        }
    }
    assert forall|j: int| !text::occurs_at(head, sep, j) by {
        if text::occurs_at(head, sep, j) {
            assert(head.subrange(j, j + 1)[0] == head[j]);
        }
    }
    assert(all.take(end) =~= head);
    assert(all.skip(end + 1) =~= tail);
}

/// A package name is a part by itself, or a scope and a part with an `@` before
/// and a slash between them.
pub proof fn a_package_name_has_a_scope_or_none(scope: Seq<char>, rest: Seq<char>, name: Seq<char>)
    ensures
        !scope.contains('/') ==> (package_name(seq!['@'] + scope + seq!['/'] + rest) <==> name_part(
            scope,
        ) && name_part(rest)),
        name.len() == 0 || name[0] != '@' ==> (package_name(name) <==> name_part(name)),
        name.len() > 0 && name[0] == '@' && !name.contains('/') ==> !package_name(name),
{
    reveal_strlit("/");
    assert("/"@ =~= seq!['/']);
    if !scope.contains('/') {
        mark_is_found_first(scope, '/', rest);
        let full = seq!['@'] + scope + seq!['/'] + rest;
        assert(full.drop_first() =~= scope + seq!['/'] + rest);
    }
    if name.len() > 0 && name[0] == '@' && !name.contains('/') {
        let bare = name.drop_first();
        assert(!bare.contains('/')) by {
            if bare.contains('/') {
                let i = choose|i: int| 0 <= i < bare.len() && bare[i] == '/';
                assert(name[i + 1] == '/');
            }
        }
        mark_is_found_first(bare, '/', Seq::empty());
    }
}

/// A spec is parted at the first `@` behind its name; the `@` of a scope parts
/// nothing, and a scope without a slash is an error.
pub proof fn a_spec_is_parted_behind_its_name(
    name: Seq<char>,
    scope: Seq<char>,
    rest: Seq<char>,
    version: Seq<char>,
)
    ensures
        name.len() > 0 && !name.contains('@') ==> {
            &&& name_and_version(name) == Ok::<(Seq<char>, Option<Seq<char>>), Seq<char>>(
                (name, None),
            )
            &&& name_and_version(name + seq!['@'] + version) == Ok::<
                (Seq<char>, Option<Seq<char>>),
                Seq<char>,
            >((name, Some(version)))
        },
        !scope.contains('/') && !rest.contains('@') ==> ({
            let full = seq!['@'] + scope + seq!['/'] + rest;
            &&& name_and_version(full) == Ok::<(Seq<char>, Option<Seq<char>>), Seq<char>>(
                (full, None),
            )
            &&& name_and_version(full + seq!['@'] + version) == Ok::<
                (Seq<char>, Option<Seq<char>>),
                Seq<char>,
            >((full, Some(version)))
        }),
        !scope.contains('/') ==> name_and_version(seq!['@'] + scope) == Err::<
            (Seq<char>, Option<Seq<char>>),
            Seq<char>,
        >("scoped 包名需要 @scope/name。"@),
{
    reveal_strlit("/");
    reveal_strlit("@");
    assert("/"@ =~= seq!['/']);
    assert("@"@ =~= seq!['@']);
    if name.len() > 0 && !name.contains('@') {
        mark_is_found_first(name, '@', version);
        assert(name[0] != '@');
        assert((name + seq!['@'] + version)[0] == name[0]);
    }
    let lead = seq!['@'] + scope;
    assert(!scope.contains('/') ==> !lead.contains('/')) by {
        if lead.contains('/') {
            let i = choose|i: int| 0 <= i < lead.len() && lead[i] == '/';
            assert(scope[i - 1] == '/');
        }
    }
    if !scope.contains('/') && !rest.contains('@') {
        let full = seq!['@'] + scope + seq!['/'] + rest;
        let longer = full + seq!['@'] + version;
        let slash = lead.len() as int;
        let tail = rest + seq!['@'] + version;
        mark_is_found_first(lead, '/', rest);
        mark_is_found_first(lead, '/', tail);
        assert(full =~= lead + seq!['/'] + rest);
        assert(longer =~= lead + seq!['/'] + tail);
        assert(full.skip(slash + 1) =~= rest);
        assert(longer.skip(slash + 1) =~= tail);
        mark_is_found_first(rest, '@', version);
        assert(longer.take(slash + 1 + rest.len()) =~= full);
    }
    if !scope.contains('/') {
        mark_is_found_first(lead, '/', Seq::empty());
        assert(lead[0] == '@');
    }
}

/// The name and the version of a spec, with an `@` between them, are the spec.
pub proof fn a_spec_is_its_name_and_version(spec: Seq<char>)
    ensures
        name_and_version(spec) matches Ok(halves) ==> {
            &&& halves.1 matches Some(version) ==> spec == halves.0 + seq!['@'] + version
            &&& halves.1 is None ==> spec == halves.0
        },
{
    reveal_strlit("/");
    reveal_strlit("@");
    assert("@"@ =~= seq!['@']);
    text::a_cut_is_at_the_first_separator(spec, "@"@);
    text::find_from_is_first(spec, "/"@, 0);
    if spec.len() > 0 && spec[0] == '@' {
        if let Some(slash) = text::find(spec, "/"@) {
            let rest = spec.skip(slash + 1);
            text::a_cut_is_at_the_first_separator(rest, "@"@);
            if let Some(halves) = text::cut(rest, "@"@) {
                assert(spec =~= spec.take(slash + 1) + rest);
                let name = spec.take(slash + 1 + halves.0.len());
                assert(name =~= spec.take(slash + 1) + halves.0);
                assert(spec =~= name + seq!['@'] + halves.1);
            }
        }
    }
}

/// What a text is taken for, case by case: a package spec where it is one, and
/// else one of five errors.
pub proof fn a_text_is_a_spec_or_an_error(raw: Seq<char>)
    ensures
        ({
            let spec = text::trimmed(raw);
            let long = encode_utf8(spec).len() > 214;
            let strange = (exists|i: int|
                0 <= i < spec.len() && (text::is_white(#[trigger] spec[i]) || spec[i] == '\\'
                    || spec[i] == ':')) || text::holds(spec, ".."@) || text::holds(spec, "//"@);
            let r = parsed(raw);
            &&& spec.len() == 0 ==> r == Err::<Seq<char>, Seq<char>>("请输入 npm 包名。"@)
            &&& spec.len() > 0 && long ==> r == Err::<Seq<char>, Seq<char>>("包名过长。"@)
            &&& spec.len() > 0 && !long && strange ==> r == Err::<Seq<char>, Seq<char>>(
                "只支持 npm 包名，例如 dsh-recall 或 @anionex/dsh-vision-toolkit。"@,
            )
            &&& spec.len() > 0 && !long && !strange ==> (match name_and_version(spec) {
                Err(message) => r == Err::<Seq<char>, Seq<char>>(message),
                Ok(halves) => {
                    let dated = halves.1 matches Some(version) ==> version_tag(version);
                    &&& !package_name(halves.0) ==> r == Err::<Seq<char>, Seq<char>>(
                        "只支持 npm 包名，例如 dsh-recall 或 @anionex/dsh-vision-toolkit。"@,
                    )
                    &&& package_name(halves.0) && !dated ==> r == Err::<Seq<char>, Seq<char>>(
                        "版本号无效。"@,
                    )
                    &&& package_name(halves.0) && dated ==> r == Ok::<Seq<char>, Seq<char>>(spec)
                },
            })
        }),
{
    let spec = text::trimmed(raw);
    if exists|i: int|
        0 <= i < spec.len() && (text::is_white(#[trigger] spec[i]) || spec[i] == '\\' || spec[i]
            == ':') {
        let i = choose|i: int|
            0 <= i < spec.len() && (text::is_white(#[trigger] spec[i]) || spec[i] == '\\'
                || spec[i] == ':');
        assert(has_white(spec) || spec.contains('\\') || spec.contains(':'));
    }
    if spec.contains('\\') {
        let i = choose|i: int| 0 <= i < spec.len() && spec[i] == '\\';
        assert(spec[i] == '\\');
    }
    if spec.contains(':') {
        let i = choose|i: int| 0 <= i < spec.len() && spec[i] == ':';
        assert(spec[i] == ':');
    }
}

/// A package name is accepted, by itself and with a version behind it, and the
/// name is found again in it, where it is not too long and holds no two dots in a
/// row.
pub proof fn names_with_versions_are_accepted(name: Seq<char>, version: Option<Seq<char>>)
    requires
        package_name(name),
        version matches Some(tag) ==> version_tag(tag),
        ({
            let spec = match version {
                Some(tag) => name + seq!['@'] + tag,
                None => name,
            };
            encode_utf8(spec).len() <= 214 && !text::holds(spec, ".."@)
        }),
    ensures
        ({
            let spec = match version {
                Some(tag) => name + seq!['@'] + tag,
                None => name,
            };
            &&& parsed(spec) == Ok::<Seq<char>, Seq<char>>(spec)
            &&& name_of(spec) == Ok::<Seq<char>, Seq<char>>(name)
        }),
{
    let spec = match version {
        Some(tag) => name + seq!['@'] + tag,
        None => name,
    };
    let tag = match version {
        Some(tag) => tag,
        None => Seq::empty(),
    };
    reveal_strlit("/");
    assert("/"@ =~= seq!['/']);
    let scoped = name[0] == '@';
    let bare = name.drop_first();
    text::a_cut_is_at_the_first_separator(bare, "/"@);
    let (scope, rest) = if scoped {
        text::cut(bare, "/"@)->0
    } else {
        (name, Seq::empty())
    };
    parts_hold_no_marks(scope);
    if scoped {
        parts_hold_no_marks(rest);
        assert(bare == scope + seq!['/'] + rest);
        assert(name =~= seq!['@'] + bare);
        assert(name =~= seq!['@'] + scope + seq!['/'] + rest);
    }
    a_spec_is_parted_behind_its_name(name, scope, rest, tag);
    let slash = scope.len() + 1;
    assert forall|i: int| 0 <= i < spec.len() implies !text::is_white(#[trigger] spec[i]) && spec[i]
        != '\\' && spec[i] != ':' && (spec[i] == '/' ==> scoped && i == slash) by {
        if i < name.len() {
            assert(spec[i] == name[i]);
            if !scoped {
                assert(name[i] == scope[i]);
            } else if 1 <= i < slash {
                assert(name[i] == scope[i - 1]);
            } else if i > slash {
                assert(name[i] == rest[i - slash - 1]);
            }
        } else if i > name.len() {
            let k = i - name.len() - 1;
            assert(spec[i] == tag[k]);
            if k > 0 {
                assert(tag_char(tag[k]));
            }
        }
    }
    reveal_strlit("//");
    if text::holds(spec, "//"@) {
        let at = choose|at: int| text::occurs_at(spec, "//"@, at);
        assert(spec.subrange(at, at + 2)[0] == spec[at]);
        assert(spec.subrange(at, at + 2)[1] == spec[at + 1]);
        assert(spec[at] == '/' && spec[at + 1] == '/');
    }
    assert(!has_white(spec));
    text_without_white_is_trimmed(spec);
    a_text_is_a_spec_or_an_error(spec);
}

proof fn parts_hold_no_marks(part: Seq<char>)
    requires
        name_part(part),
    ensures
        !part.contains('@'),
        !part.contains('/'),
        forall|i: int|
            0 <= i < part.len() ==> !text::is_white(#[trigger] part[i]) && part[i] != '\\'
                && part[i] != ':' && part[i] != '/' && part[i] != '@',
{
    assert forall|i: int| 0 <= i < part.len() implies !text::is_white(#[trigger] part[i]) && part[i]
        != '\\' && part[i] != ':' && part[i] != '/' && part[i] != '@' by {
        if i > 0 {
            assert(name_char(part[i]));
        }
    }
}

/// The name in a text is the one that its spec is parted into; a text that is no
/// spec gives its error.
pub proof fn the_name_is_that_of_the_spec(raw: Seq<char>)
    ensures
        parsed(raw) matches Err(message) ==> name_of(raw) == Err::<Seq<char>, Seq<char>>(message),
        parsed(raw) is Ok ==> name_and_version(text::trimmed(raw)) is Ok && name_of(raw) == Ok::<
            Seq<char>,
            Seq<char>,
        >(name_and_version(text::trimmed(raw))->Ok_0.0),
{
}

/// The program is asked to act on a plugin of the web profile.
pub proof fn the_program_acts_on_the_web_profile(action: Seq<char>, spec: Seq<char>)
    ensures
        plugin_command(action, spec) == seq!["plugin"@, "--profile"@, "web"@, action, spec],
{
}

/// The commands to add and to remove a plugin, word for word.
pub proof fn commands_say_what_is_done(
    spec: &str,
    adding: Vec<String>,
    removing: Vec<String>,
)
    requires
        call_ensures(plugin_add_args, (spec,), adding),
        call_ensures(plugin_remove_args, (spec,), removing),
    ensures
        text::texts(adding@) == seq!["plugin"@, "--profile"@, "web"@, "add"@, spec@],
        text::texts(removing@) == seq!["plugin"@, "--profile"@, "web"@, "remove"@, spec@],
{
}

/// A split says what its halves say.
pub proof fn a_split_says_what_its_halves_say(r: Result<(String, Option<String>), String>)
    ensures
        r matches Ok(halves) ==> split_view(r) == Ok::<(Seq<char>, Option<Seq<char>>), Seq<char>>(
            (halves.0@, text::text_opt(halves.1)),
        ),
        r matches Err(message) ==> split_view(r) == Err::<
            (Seq<char>, Option<Seq<char>>),
            Seq<char>,
        >(message@),
{
}

} // verus!
