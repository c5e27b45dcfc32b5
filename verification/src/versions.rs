//! Versions: which of two is newer, which requirements a version meets, and
//! the directory name that a version is kept under.

use vstd::prelude::*;
use vstd::string::*;

use crate::text;

verus! {

// ---------------------------------------------------------------------------
// The semver crate
// ---------------------------------------------------------------------------
/// Whether `semver::Version::parse` takes a text for a version.
pub uninterp spec fn semver_valid(version: Seq<char>) -> bool;

/// Whether, of two versions that `semver::Version::parse` takes, the first is
/// greater than the second.
pub uninterp spec fn semver_exceeds(left: Seq<char>, right: Seq<char>) -> bool;

/// Whether `semver::VersionReq::parse` takes the first text for a requirement
/// and `semver::VersionReq::matches` says that the version meets it.
pub uninterp spec fn semver_accepts(requirement: Seq<char>, version: Seq<char>) -> bool;

/// The characters that a version is made of.
pub open spec fn version_char(item: char) -> bool {
    text::is_alnum(item) || item == '.' || item == '-' || item == '+'
}

/// Calls `semver::Version::parse` and says whether it took the text. What it
/// takes starts with a digit and is made of ASCII letters, digits, dots,
/// hyphens and plus signs.
#[verifier::external_body]
fn version_parses(version: &str) -> (r: bool)
    ensures
        r == semver_valid(version@),
        r ==> version@.len() > 0 && text::is_digit(version@[0]),
        r ==> forall|i: int| 0 <= i < version@.len() ==> version_char(#[trigger] version@[i]),
{
    semver::Version::parse(version).is_ok()
}

/// The version is a prerelease of this release.
pub open spec fn prerelease_of(version: Seq<char>, release: Seq<char>) -> bool {
    !release.contains('-') && !release.contains('+') && (release + "-"@).is_prefix_of(version)
}

/// The version is the one with this number in a series of prereleases, such as
/// number `9` in the series `1.0.0-rc.`.
pub open spec fn numbered(version: Seq<char>, series: Seq<char>, number: Seq<char>) -> bool {
    &&& version == series + number
    &&& series.contains('-')
    &&& !series.contains('+')
    &&& series.last() == '.'
    &&& number.len() > 0
    &&& text::all_digits(number)
}

/// Compares two versions with the `>` of `semver::Version`, a strict order: no
/// version is greater than itself, of two versions at most one is greater, and
/// what is greater than a version is greater than all that this one is greater
/// than. A release is greater than its prereleases, and prereleases that differ
/// in their last number are ordered by that number. The rest of the order is
/// left to the name.
#[verifier::external_body]
fn version_exceeds(left: &str, right: &str) -> (r: bool)
    requires
        semver_valid(left@),
        semver_valid(right@),
    ensures
        r == semver_exceeds(left@, right@),
        left@ == right@ ==> !r,
        r ==> !semver_exceeds(right@, left@),
        r ==> forall|other: Seq<char>|
            semver_valid(other) && #[trigger] semver_exceeds(right@, other) ==> semver_exceeds(
                left@,
                other,
            ),
        prerelease_of(right@, left@) ==> r,
        forall|series: Seq<char>, high: Seq<char>, low: Seq<char>|
            #[trigger] numbered(left@, series, high) && #[trigger] numbered(right@, series, low)
                ==> r == (text::digits_value(high) > text::digits_value(low)),
{
    semver::Version::parse(left).unwrap() > semver::Version::parse(right).unwrap()
}

/// Reads a requirement with `semver::VersionReq::parse` and asks
/// `semver::VersionReq::matches` whether a version meets it. A text that is no
/// requirement is met by no version.
#[verifier::external_body]
fn requirement_accepts(requirement: &str, version: &str) -> (r: bool)
    requires
        semver_valid(version@),
    ensures
        r == semver_accepts(requirement@, version@),
{
    match semver::VersionReq::parse(requirement) {
        Ok(parsed) => parsed.matches(&semver::Version::parse(version).unwrap()),
        Err(_) => false,
    }
}

// ---------------------------------------------------------------------------
// Order
// ---------------------------------------------------------------------------
/// Both are versions, and the first is greater.
pub open spec fn newer(left: Seq<char>, right: Seq<char>) -> bool {
    semver_valid(left) && semver_valid(right) && semver_exceeds(left, right)
}

/// Whether a text is a version.
pub fn is_version(version: &str) -> (r: bool)
    ensures
        r == semver_valid(version@),
{
    version_parses(version)
}

/// Whether both are versions and the first is greater. No version is newer
/// than itself, of two versions at most one is newer than the other, and what
/// is newer than a version is newer than all that this one is newer than. A
/// release is newer than its prereleases, and of these the one with the greater
/// number is newer.
pub fn version_newer(left: &str, right: &str) -> (r: bool)
    ensures
        r == newer(left@, right@),
        left@ == right@ ==> !r,
        r ==> !newer(right@, left@),
        r ==> forall|other: Seq<char>|
            #[trigger] newer(right@, other) ==> newer(left@, other),
        semver_valid(left@) && semver_valid(right@) && prerelease_of(right@, left@) ==> r,
        semver_valid(left@) && semver_valid(right@) ==> forall|
            series: Seq<char>,
            high: Seq<char>,
            low: Seq<char>,
        |
            #[trigger] numbered(left@, series, high) && #[trigger] numbered(right@, series, low)
                ==> r == (text::digits_value(high) > text::digits_value(low)),
{
    if version_parses(left) && version_parses(right) {
        version_exceeds(left, right)
    } else {
        false
    }
}

// ---------------------------------------------------------------------------
// Requirements
// ---------------------------------------------------------------------------
/// There is no requirement, or one that says nothing.
pub open spec fn unrestricted(requirement: Option<Seq<char>>) -> bool {
    match requirement {
        Some(content) => text::trimmed(content).len() == 0,
        None => true,
    }
}

/// The alternatives of a requirement.
pub open spec fn alternatives(requirement: Seq<char>) -> Seq<Seq<char>> {
    text::split(requirement, "||"@).map_values(|part: Seq<char>| text::trimmed(part))
}

/// A version meets a requirement where there is none, or where it meets one of
/// its alternatives.
pub open spec fn meets(version: Seq<char>, requirement: Option<Seq<char>>) -> bool {
    ||| unrestricted(requirement)
    ||| semver_valid(version) && exists|k: int|
        0 <= k < alternatives(requirement->0).len() && semver_accepts(
            #[trigger] alternatives(requirement->0)[k],
            version,
        )
}

/// The alternatives of a requirement: what stands between one `||` and the
/// next, without the white space around it.
pub fn requirement_alternatives(requirement: &str) -> (r: Vec<String>)
    ensures
        text::texts(r@) == alternatives(requirement@),
{
    proof {
        reveal_strlit("||");
    }
    let parts = text::split_text(requirement, "||");
    let mut out: Vec<String> = Vec::new();
    let mut i: usize = 0;
    while i < parts.len()
        invariant
            i <= parts@.len(),
            out@.len() == i,
            forall|j: int| 0 <= j < i ==> (#[trigger] out@[j])@ == text::trimmed(parts@[j]@),
        decreases parts@.len() - i,
    {
        out.push(text::trim(parts[i].as_str()).to_owned());
        i += 1;
    }
    assert(text::texts(out@) =~= text::texts(parts@).map_values(
        |part: Seq<char>| text::trimmed(part),
    ));
    out
}

/// What is concluded about a requirement: `version_valid` says whether the
/// version is one, `accepted` which of the alternatives it meets.
pub fn requirement_verdict(
    requirement: Option<&str>,
    version_valid: bool,
    accepted: &Vec<bool>,
) -> (r: bool)
    ensures
        r == (unrestricted(text::str_opt(requirement)) || version_valid && accepted@.contains(true)),
{
    let free = match requirement {
        Some(content) => text::trim(content).is_empty(),
        None => true,
    };
    if free {
        return true;
    }
    if !version_valid {
        return false;
    }
    let mut i: usize = 0;
    while i < accepted.len()
        invariant
            i <= accepted@.len(),
            version_valid,
            forall|j: int| 0 <= j < i ==> !accepted@[j],
        decreases accepted@.len() - i,
    {
        if accepted[i] {
            assert(accepted@[i as int] == true);
            return true;
        }
        i += 1;
    }
    false
}

/// Whether a Node version meets a requirement.
pub fn node_supported(node_version: &str, requirement: Option<&str>) -> (r: bool)
    ensures
        r == meets(node_version@, text::str_opt(requirement)),
{
    let valid = version_parses(node_version);
    let mut accepted: Vec<bool> = Vec::new();
    if let Some(content) = requirement {
        if valid {
            let parts = requirement_alternatives(content);
            let mut i: usize = 0;
            while i < parts.len()
                invariant
                    i <= parts@.len(),
                    semver_valid(node_version@),
                    text::texts(parts@) == alternatives(content@),
                    accepted@.len() == i,
                    forall|j: int|
                        0 <= j < i ==> #[trigger] accepted@[j] == semver_accepts(
                            alternatives(content@)[j],
                            node_version@,
                        ),
                decreases parts@.len() - i,
            {
                assert(text::texts(parts@)[i as int] == parts@[i as int]@);
                accepted.push(requirement_accepts(parts[i].as_str(), node_version));
                i += 1;
            }
            assert(alternatives(content@).len() == parts@.len());
        }
    }
    let r = requirement_verdict(requirement, valid, &accepted);
    proof {
        if !unrestricted(text::str_opt(requirement)) && valid {
            let parts = alternatives(requirement->0@);
            if accepted@.contains(true) {
                let k = choose|k: int| 0 <= k < accepted@.len() && accepted@[k] == true;
                assert(semver_accepts(parts[k], node_version@));
            }
            if meets(node_version@, text::str_opt(requirement)) {
                let k = choose|k: int|
                    0 <= k < parts.len() && semver_accepts(#[trigger] parts[k], node_version@);
                assert(accepted@[k]);
            }
        }
    }
    r
}

// ---------------------------------------------------------------------------
// Directory names
// ---------------------------------------------------------------------------
/// A character of a version as it stands in a directory name.
pub open spec fn sanitized_char(item: char) -> char {
    if version_char(item) {
        item
    } else {
        '_'
    }
}

/// The directory name of a version, given whether it is one.
pub open spec fn sanitized(version: Seq<char>, valid: bool) -> Seq<char> {
    let name = version.map_values(|item: char| sanitized_char(item));
    if !valid || name.len() == 0 || name == "."@ || name == ".."@ {
        "_invalid"@
    } else {
        name
    }
}

/// The directory name of a version.
pub open spec fn directory(version: Seq<char>) -> Seq<char> {
    sanitized(version, semver_valid(version))
}

/// The directory name of a version, given whether it is one.
pub fn directory_name(version: &str, valid: bool) -> (r: String)
    ensures
        r@ == sanitized(version@, valid),
{
    if !valid {
        return "_invalid".to_string();
    }
    let items = text::chars_of(version);
    let mut name = String::new();
    let mut i: usize = 0;
    while i < items.len()
        invariant
            i <= items@.len(),
            items@ == version@,
            name@.len() == i,
            forall|j: int| 0 <= j < i ==> #[trigger] name@[j] == sanitized_char(version@[j]),
        decreases items@.len() - i,
    {
        let item = items[i];
        if text::alnum(item) || item == '.' || item == '-' || item == '+' {
            name.push(item);
        } else {
            name.push('_');
        }
        i += 1;
    }
    assert(name@ =~= version@.map_values(|item: char| sanitized_char(item)));
    if name.as_str().is_empty() || text::same(name.as_str(), ".") || text::same(
        name.as_str(),
        "..",
    ) {
        return "_invalid".to_string();
    }
    name
}

/// The directory name of a version: the version itself where it is one, and a
/// name that no version has where it is none.
pub fn sanitize_version(version: &str) -> (r: String)
    ensures
        r@ == directory(version@),
        semver_valid(version@) ==> r@ == version@,
        semver_valid(version@) ==> r@ != "_invalid"@,
        !semver_valid(version@) ==> r@ == "_invalid"@,
{
    let valid = version_parses(version);
    proof {
        if valid {
            let name = version@.map_values(|item: char| sanitized_char(item));
            assert(name =~= version@);
            reveal_strlit(".");
            reveal_strlit("..");
            assert("."@[0] == '.');
            assert(".."@[0] == '.');
            reveal_strlit("_invalid");
            assert("_invalid"@[0] == '_');
        }
    }
    directory_name(version, valid)
}

/// A name that stands for one directory below the present one.
pub open spec fn plain_name(name: Seq<char>) -> bool {
    &&& name.len() > 0
    &&& name != "."@
    &&& name != ".."@
    &&& forall|i: int|
        0 <= i < name.len() ==> version_char(#[trigger] name[i]) || name[i] == '_'
}

/// Whatever stands for a version, its directory name is a plain name: it has
/// no separator and leads nowhere but down.
pub proof fn directory_name_is_plain(version: Seq<char>, valid: bool)
    ensures
        plain_name(sanitized(version, valid)),
        !sanitized(version, valid).contains('/'),
        !sanitized(version, valid).contains('\\'),
{
    reveal_strlit("_invalid");
    reveal_strlit(".");
    reveal_strlit("..");
    assert("_invalid"@ =~= seq!['_', 'i', 'n', 'v', 'a', 'l', 'i', 'd']);
    assert("_invalid"@.len() != "."@.len());
    assert("_invalid"@.len() != ".."@.len());
}

/// A version meets a requirement that says nothing, and one of which it meets an
/// alternative: what stands between one `||` and the next.
pub proof fn one_alternative_is_enough(version: Seq<char>, requirement: Seq<char>, part: Seq<char>)
    ensures
        meets(version, None),
        text::trimmed(requirement).len() == 0 ==> meets(version, Some(requirement)),
        semver_valid(version) && text::split(requirement, "||"@).contains(part) && semver_accepts(
            text::trimmed(part),
            version,
        ) ==> meets(version, Some(requirement)),
        text::trimmed(requirement).len() > 0 && meets(version, Some(requirement)) ==> semver_valid(
            version,
        ) && exists|k: int|
            0 <= k < text::split(requirement, "||"@).len() && semver_accepts(
                text::trimmed(#[trigger] text::split(requirement, "||"@)[k]),
                version,
            ),
        alternatives(requirement).len() == text::split(requirement, "||"@).len(),
{
    let parts = text::split(requirement, "||"@);
    if parts.contains(part) {
        let k = choose|k: int| 0 <= k < parts.len() && parts[k] == part;
        assert(alternatives(requirement)[k] == text::trimmed(part));
    }
    if text::trimmed(requirement).len() > 0 && meets(version, Some(requirement)) {
        let k = choose|k: int|
            0 <= k < alternatives(requirement).len() && semver_accepts(
                #[trigger] alternatives(requirement)[k],
                version,
            );
        assert(semver_accepts(text::trimmed(parts[k]), version));
    }
}

/// A version is newer than another where both are versions and semver says so.
pub proof fn newer_is_greater(left: Seq<char>, right: Seq<char>)
    ensures
        newer(left, right) <==> semver_valid(left) && semver_valid(right) && semver_exceeds(
            left,
            right,
        ),
{
}

/// A directory name keeps the letters, digits, dots, hyphens and plus signs of a
/// version and puts a line for everything else.
pub proof fn directory_names_keep_what_is_plain(version: Seq<char>, i: int)
    requires
        0 <= i < version.len(),
        sanitized(version, true) != "_invalid"@,
    ensures
        sanitized(version, true).len() == version.len(),
        text::is_alnum(version[i]) || version[i] == '.' || version[i] == '-' || version[i] == '+'
            ==> sanitized(version, true)[i] == version[i],
        !(text::is_alnum(version[i]) || version[i] == '.' || version[i] == '-' || version[i] == '+')
            ==> sanitized(version, true)[i] == '_',
{
}

/// What is no version gets the one name for all of them; and so does what would
/// be no name of a directory.
pub proof fn directory_names_of_the_rest(version: Seq<char>)
    ensures
        sanitized(version, false) == "_invalid"@,
        version.len() == 0 || version == "."@ || version == ".."@ ==> sanitized(version, true)
            == "_invalid"@,
        version.len() > 2 ==> sanitized(version, true).len() == version.len(),
        directory(version) == sanitized(version, semver_valid(version)),
{
    reveal_strlit(".");
    reveal_strlit("..");
    let name = version.map_values(|item: char| sanitized_char(item));
    if version == "."@ {
        assert(name =~= "."@);
    }
    if version == ".."@ {
        assert(name =~= ".."@);
    }
}

/// A requirement that says nothing is met; any other one is met by a version that
/// one of its alternatives accepts.
pub proof fn a_verdict_needs_one_alternative(
    requirement: Option<&str>,
    version_valid: bool,
    accepted: &Vec<bool>,
    r: bool,
)
    requires
        call_ensures(requirement_verdict, (requirement, version_valid, accepted), r),
    ensures
        requirement is None ==> r,
        requirement matches Some(text) ==> text::trimmed(text@).len() == 0 ==> r,
        requirement matches Some(text) ==> text::trimmed(text@).len() > 0 ==> (r <==> version_valid
            && exists|i: int| 0 <= i < accepted@.len() && #[trigger] accepted@[i]),
{
    if exists|i: int| 0 <= i < accepted@.len() && #[trigger] accepted@[i] {
        let i = choose|i: int| 0 <= i < accepted@.len() && #[trigger] accepted@[i];
        assert(accepted@.contains(accepted@[i]));
    }
}

/// The alternatives of a requirement are its parts between one `||` and the next,
/// in their order, without the white space around them.
pub proof fn alternatives_are_the_parts(requirement: Seq<char>, k: int)
    requires
        0 <= k < text::split(requirement, "||"@).len(),
    ensures
        alternatives(requirement).len() == text::split(requirement, "||"@).len(),
        alternatives(requirement)[k] == text::trimmed(text::split(requirement, "||"@)[k]),
{
}

} // verus!
