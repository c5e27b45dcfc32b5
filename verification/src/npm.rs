//! What a package registry is asked for, and what is made of its answers.

use vstd::prelude::*;
use vstd::string::*;

use crate::controller::ReleaseView;
use crate::controller::SelectedRelease;
use crate::json;
use crate::json::JsonNode;
use crate::json::JsonView;
use crate::text;
use crate::versions;

verus! {

/// The package that is looked for.
pub const OFFICIAL_DSH_NAME: &'static str = "@deepseek-ai/dsh";

/// The registry that is asked first.
pub const DEFAULT_NPM_REGISTRY: &'static str = "https://registry.npmjs.org";

/// The registry that is asked where the first one fails.
pub const NPM_MIRROR_REGISTRY: &'static str = "https://registry.npmmirror.com";

/// How many seconds an answer may take.
pub const JSON_FETCH_TIMEOUT_SECS: u64 = 8;

/// How many seconds a connection may take.
pub const CONNECT_TIMEOUT_SECS: u64 = 3;

/// What a registry says of the latest version of a package.
#[derive(Debug)]
pub struct NpmVersionDocument {
    pub version: String,
    pub engines: NpmEngines,
}

/// The programs that a package needs.
#[derive(Debug)]
pub struct NpmEngines {
    pub node: Option<String>,
}

/// The latest version of the package, and where it was found.
#[derive(Debug, PartialEq, Eq)]
pub struct NpmLatest {
    pub version: String,
    pub registry: String,
    pub node: Option<String>,
    pub source: String,
}

/// What an `NpmLatest` says.
#[verifier::ext_equal]
pub struct LatestView {
    pub version: Seq<char>,
    pub registry: Seq<char>,
    pub node: Option<Seq<char>>,
    pub source: Seq<char>,
}

impl View for NpmLatest {
    type V = LatestView;

    open spec fn view(&self) -> LatestView {
        LatestView {
            version: self.version@,
            registry: self.registry@,
            node: text::text_opt(self.node),
            source: self.source@,
        }
    }
}

/// What came of a check for a new version.
#[derive(Debug, PartialEq, Eq)]
pub enum UpdateCheck {
    /// The version in use is the latest.
    Latest,
    /// A new version can be installed.
    Available(SelectedRelease),
    /// A new version needs a new desktop, with the reason.
    NeedsDesktop(String),
}

/// What an `UpdateCheck` says.
#[verifier::ext_equal]
pub enum CheckResult {
    Latest,
    Available(ReleaseView),
    NeedsDesktop(Seq<char>),
}

impl View for UpdateCheck {
    type V = CheckResult;

    open spec fn view(&self) -> CheckResult {
        match self {
            UpdateCheck::Latest => CheckResult::Latest,
            UpdateCheck::Available(selected) => CheckResult::Available(selected@),
            UpdateCheck::NeedsDesktop(message) => CheckResult::NeedsDesktop(message@),
        }
    }
}

// ---------------------------------------------------------------------------
// Addresses
// ---------------------------------------------------------------------------
/// Where a registry describes the latest version.
pub open spec fn latest_url(registry: Seq<char>) -> Seq<char> {
    registry + "/"@ + OFFICIAL_DSH_NAME@ + "/latest"@
}

/// The addresses that are asked, in this order: those of the official registry
/// and of the mirror, or that of the one registry that was asked for.
pub open spec fn latest_urls(registry: Option<Seq<char>>) -> Seq<Seq<char>> {
    match registry {
        Some(own) => seq![latest_url(text::without_trailing(own, '/'))],
        None => seq![latest_url(DEFAULT_NPM_REGISTRY@), latest_url(NPM_MIRROR_REGISTRY@)],
    }
}

fn url_of(registry: &str) -> (r: String)
    ensures
        r@ == latest_url(registry@),
{
    let mut out = registry.to_string();
    out.append("/");
    out.append(OFFICIAL_DSH_NAME);
    out.append("/latest");
    out
}

/// The addresses that are asked for the latest version.
pub fn npm_latest_urls(registry: Option<&str>) -> (r: Vec<String>)
    ensures
        text::texts(r@) == latest_urls(text::str_opt(registry)),
{
    let mut out: Vec<String> = Vec::new();
    match registry {
        Some(own) => {
            out.push(url_of(text::trim_end_char(own, '/').as_str()));
        },
        None => {
            out.push(url_of(DEFAULT_NPM_REGISTRY));
            out.push(url_of(NPM_MIRROR_REGISTRY));
        },
    }
    assert(text::texts(out@) =~= latest_urls(text::str_opt(registry)));
    out
}

/// The registry that an address belongs to.
pub open spec fn origin_of(url: Seq<char>) -> Seq<char> {
    text::without_trailing(text::before(url, "/@deepseek-ai/"@), '/')
}

/// The registry that an address belongs to.
pub fn registry_origin(url: &str) -> (r: String)
    ensures
        r@ == origin_of(url@),
{
    text::trim_end_char(text::head_text(url, "/@deepseek-ai/").as_str(), '/')
}

/// What a source is called.
pub open spec fn label_of(url: Seq<char>) -> Seq<char> {
    if text::holds(url, "npmmirror.com"@) {
        "npmmirror"@
    } else if text::holds(url, "registry.npmjs.org"@) {
        "npm"@
    } else {
        "npm registry"@
    }
}

/// What a source is called.
pub fn source_label(url: &str) -> (r: &'static str)
    ensures
        r@ == label_of(url@),
{
    if text::contains(url, "npmmirror.com") {
        "npmmirror"
    } else if text::contains(url, "registry.npmjs.org") {
        "npm"
    } else {
        "npm registry"
    }
}

// ---------------------------------------------------------------------------
// Failures
// ---------------------------------------------------------------------------
/// A failed question, in a few words.
pub open spec fn fetch_failure(error: Seq<char>) -> Seq<char> {
    let lower = text::lower_case(error);
    let parts = text::split(error, "HTTP "@);
    if text::holds(lower, "404"@) {
        "返回 404"@
    } else if text::holds(lower, "timed out"@) || text::holds(lower, "timeout"@) {
        "连接超时"@
    } else if parts.len() > 1 && text::leading_digits(parts[1]).len() > 0 {
        "HTTP "@ + text::leading_digits(parts[1])
    } else {
        "连接失败"@
    }
}

/// A failed question, in a few words.
pub fn classify_fetch_error(error: &str) -> (r: String)
    ensures
        r@ == fetch_failure(error@),
{
    let lower = text::lower_text(error);
    if text::contains(lower.as_str(), "404") {
        return "返回 404".to_string();
    }
    if text::contains(lower.as_str(), "timed out") || text::contains(lower.as_str(), "timeout") {
        return "连接超时".to_string();
    }
    proof {
        reveal_strlit("HTTP ");
    }
    let parts = text::split_text(error, "HTTP ");
    assert(text::texts(parts@).len() == parts@.len());
    if parts.len() > 1 {
        assert(text::texts(parts@)[1] == parts@[1]@);
        let code = text::digits_at_start(parts[1].as_str());
        if !code.as_str().is_empty() {
            let mut out = "HTTP ".to_string();
            out.append(code.as_str());
            return out;
        }
    }
    "连接失败".to_string()
}

// ---------------------------------------------------------------------------
// The choice
// ---------------------------------------------------------------------------
/// Why a version cannot be installed.
pub open spec fn desktop_needed(latest: LatestView, node_version: Seq<char>) -> Seq<char> {
    let wanted = match latest.node {
        Some(requirement) => requirement,
        None => "未知"@,
    };
    "npm latest DSH "@ + latest.version + " 需要 Node "@ + wanted + "，当前随包 Node 为 "@
        + node_version
}

/// What follows from whether the latest version is newer than the one in use
/// and whether the Node that is there will do.
pub open spec fn choice(
    latest: LatestView,
    node_version: Seq<char>,
    is_newer: bool,
    node_ok: bool,
) -> CheckResult {
    if !is_newer {
        CheckResult::Latest
    } else if !node_ok {
        CheckResult::NeedsDesktop(desktop_needed(latest, node_version))
    } else {
        CheckResult::Available(ReleaseView { version: latest.version, registry: latest.registry })
    }
}

/// What a check comes to.
pub open spec fn selected(
    latest: LatestView,
    current_version: Seq<char>,
    node_version: Seq<char>,
) -> CheckResult {
    choice(
        latest,
        node_version,
        versions::newer(latest.version, current_version),
        versions::meets(node_version, latest.node),
    )
}

/// What follows from whether the latest version is newer than the one in use
/// and whether the Node that is there will do.
pub fn choose_update(latest: &NpmLatest, node_version: &str, is_newer: bool, node_ok: bool) -> (r:
    UpdateCheck)
    ensures
        r@ == choice(latest@, node_version@, is_newer, node_ok),
{
    if !is_newer {
        return UpdateCheck::Latest;
    }
    if !node_ok {
        let mut message = "npm latest DSH ".to_string();
        message.append(latest.version.as_str());
        message.append(" 需要 Node ");
        match &latest.node {
            Some(requirement) => {
                message.append(requirement.as_str());
            },
            None => {
                message.append("未知");
            },
        }
        message.append("，当前随包 Node 为 ");
        message.append(node_version);
        return UpdateCheck::NeedsDesktop(message);
    }
    UpdateCheck::Available(
        SelectedRelease { version: latest.version.clone(), registry: latest.registry.clone() },
    )
}

/// What a check comes to.
pub fn select_npm_update(latest: &NpmLatest, current_version: &str, node_version: &str) -> (r:
    UpdateCheck)
    ensures
        r@ == selected(latest@, current_version@, node_version@),
        latest.version@ == current_version@ ==> r@ == CheckResult::Latest,
{
    let is_newer = versions::version_newer(latest.version.as_str(), current_version);
    let node_ok = match &latest.node {
        Some(requirement) => versions::node_supported(node_version, Some(requirement.as_str())),
        None => versions::node_supported(node_version, None),
    };
    choose_update(latest, node_version, is_newer, node_ok)
}

// ---------------------------------------------------------------------------
// The installation
// ---------------------------------------------------------------------------
/// The package and version that is installed.
pub open spec fn release_spec(version: Seq<char>) -> Seq<char> {
    OFFICIAL_DSH_NAME@ + "@"@ + version
}

/// The package and version that is installed.
pub fn install_spec(version: &str) -> (r: String)
    ensures
        r@ == release_spec(version@),
{
    let mut out = OFFICIAL_DSH_NAME.to_string();
    out.append("@");
    out.append(version);
    out
}

/// What npm is called with; the directory that it installs to comes after.
pub fn install_arguments(version: &str) -> (r: Vec<String>)
    ensures
        text::texts(r@) == seq![
            "install"@,
            release_spec(version@),
            "--omit=dev"@,
            "--no-audit"@,
            "--no-fund"@,
            "--no-package-lock"@,
            "--prefix"@,
        ],
{
    let mut out: Vec<String> = Vec::new();
    out.push("install".to_string());
    out.push(install_spec(version));
    out.push("--omit=dev".to_string());
    out.push("--no-audit".to_string());
    out.push("--no-fund".to_string());
    out.push("--no-package-lock".to_string());
    out.push("--prefix".to_string());
    assert(text::texts(out@) =~= seq![
        "install"@,
        release_spec(version@),
        "--omit=dev"@,
        "--no-audit"@,
        "--no-fund"@,
        "--no-package-lock"@,
        "--prefix"@,
    ]);
    out
}

/// What a line that npm prints says of its progress: nothing where it is
/// blank.
pub fn progress_note(line: &str) -> (r: Option<String>)
    ensures
        text::text_opt(r) == (if text::trimmed(line@).len() == 0 {
            None
        } else {
            Some(text::trimmed(line@))
        }),
{
    let trimmed = text::trim(line);
    if trimmed.is_empty() {
        None
    } else {
        Some(trimmed.to_owned())
    }
}

/// What is said where npm did not succeed.
pub fn install_failure(version: &str, status: &str) -> (r: String)
    ensures
        r@ == "npm 安装 "@ + release_spec(version@) + " 失败："@ + status@,
{
    let mut out = "npm 安装 ".to_string();
    out.append(install_spec(version).as_str());
    out.append(" 失败：");
    out.append(status);
    out
}

/// What is made of the description of an installed package: whose version is
/// `installed`, where it could be read and has one.
pub open spec fn installation_result(
    installed: Option<Result<Option<Seq<char>>, Seq<char>>>,
    version: Seq<char>,
    entry_complete: bool,
) -> Result<(), Seq<char>> {
    match installed {
        None => Err("安装结果缺少官方 package.json"@),
        Some(Err(reason)) => Err(reason),
        Some(Ok(None)) => Err("安装结果缺少版本号"@),
        Some(Ok(Some(found))) => if found != version {
            Err("安装到的 DSH 版本是 "@ + found + "，期望 "@ + version)
        } else if !entry_complete {
            Err("安装结果缺少 lib/bin.js"@)
        } else {
            Ok(())
        },
    }
}

/// The version in the description of a package: why it cannot be read, or
/// the version where there is one.
pub open spec fn stated_version(source: Seq<char>) -> Result<Option<Seq<char>>, Seq<char>> {
    match json::json_node(source) {
        JsonView::Invalid(reason) => Err(reason),
        node => match json::field_of(node, "version"@) {
            Some(field) => Ok(json::text_of_node(json::json_node(field))),
            None => Ok(None),
        },
    }
}

/// What a result without a value says.
pub open spec fn outcome(r: Result<(), String>) -> Result<(), Seq<char>> {
    match r {
        Ok(_) => Ok(()),
        Err(reason) => Err(reason@),
    }
}

/// What the version in the description of a package is.
pub open spec fn stated_view(installed: Result<Option<String>, String>) -> Result<
    Option<Seq<char>>,
    Seq<char>,
> {
    match installed {
        Ok(found) => Ok(text::text_opt(found)),
        Err(reason) => Err(reason@),
    }
}

/// What is made of an installed package, given what its description says.
pub fn judge_installation(
    installed: Option<Result<Option<String>, String>>,
    version: &str,
    entry_complete: bool,
) -> (r: Result<(), String>)
    ensures
        outcome(r) == installation_result(
            match installed {
                Some(stated) => Some(stated_view(stated)),
                None => None,
            },
            version@,
            entry_complete,
        ),
{
    match installed {
        None => Err("安装结果缺少官方 package.json".to_string()),
        Some(Err(reason)) => Err(reason),
        Some(Ok(None)) => Err("安装结果缺少版本号".to_string()),
        Some(Ok(Some(found))) => {
            if !text::same(found.as_str(), version) {
                let mut message = "安装到的 DSH 版本是 ".to_string();
                message.append(found.as_str());
                message.append("，期望 ");
                message.append(version);
                return Err(message);
            }
            if !entry_complete {
                return Err("安装结果缺少 lib/bin.js".to_string());
            }
            Ok(())
        },
    }
}

/// Whether a package has been installed as it should be, given the text of
/// its description, where there is one, and whether its program is there.
pub fn verify_installed_dsh(package: Option<&str>, version: &str, entry_complete: bool) -> (r:
    Result<(), String>)
    ensures
        outcome(r) == installation_result(
            match package {
                Some(source) => Some(stated_version(source@)),
                None => None,
            },
            version@,
            entry_complete,
        ),
{
    let installed = match package {
        None => None,
        Some(source) => match json::read_json(source) {
            JsonNode::Invalid(reason) => Some(Err(reason)),
            node => match node.field("version") {
                Some(field) => Some(Ok(json::read_json(field.as_str()).as_text())),
                None => Some(Ok(None)),
            },
        },
    };
    judge_installation(installed, version, entry_complete)
}

// ---------------------------------------------------------------------------
// Laws
// ---------------------------------------------------------------------------
/// A release is on offer only where it is newer than the version in use and
/// the Node that is there will do; and it is the latest of its registry.
pub proof fn only_fitting_releases_are_offered(
    latest: LatestView,
    current_version: Seq<char>,
    node_version: Seq<char>,
)
    ensures
        selected(latest, current_version, node_version) is Available <==> versions::newer(
            latest.version,
            current_version,
        ) && versions::meets(node_version, latest.node),
        selected(latest, current_version, node_version) matches CheckResult::Available(release)
            ==> release.version == latest.version && release.registry == latest.registry,
{
}

/// Every address that is asked belongs to the registry that it was made of,
/// where that one ends in no slash and does not itself lead into the scope of
/// the package.
pub proof fn origin_undoes_latest_url(registry: Seq<char>)
    requires
        !text::holds(registry + "/"@, "/@deepseek-ai/"@),
        registry.len() > 0 ==> registry.last() != '/',
    ensures
        origin_of(latest_url(registry)) == registry,
{
    reveal_strlit("/");
    reveal_strlit("/latest");
    reveal_strlit("@deepseek-ai/dsh");
    reveal_strlit("/@deepseek-ai/");
    let url = latest_url(registry);
    let scope = "/@deepseek-ai/"@;
    let end = registry.len() as int;
    text::find_from_is_first(url, scope, 0);
    assert(url.subrange(end, end + scope.len()) =~= scope);
    assert(text::occurs_at(url, scope, end));
    assert forall|j: int| 0 <= j < end implies !text::occurs_at(url, scope, j) by {
        if text::occurs_at(url, scope, j) {
            let lead = registry + "/"@;
            if j + scope.len() <= lead.len() {
                assert(lead.subrange(j, j + scope.len()) =~= url.subrange(j, j + scope.len()));
                assert(text::occurs_at(lead, scope, j));
            } else {
                assert(url.subrange(j, j + scope.len())[end + 1 - j] == url[end + 1]);
                assert(url[end + 1] == '@');
            }
        }
    }
    assert(url.take(end) =~= registry);
}

/// The addresses that are asked: that of the one registry that was asked for,
/// or those of the official registry and then of the mirror.
pub proof fn registries_are_asked_in_order(own: Seq<char>)
    ensures
        latest_urls(None) == seq![
            "https://registry.npmjs.org/@deepseek-ai/dsh/latest"@,
            "https://registry.npmmirror.com/@deepseek-ai/dsh/latest"@,
        ],
        latest_urls(Some(own)) == seq![
            text::without_trailing(own, '/') + "/@deepseek-ai/dsh/latest"@,
        ],
        latest_url(own) == own + "/@deepseek-ai/dsh/latest"@,
{
    reveal_strlit("/");
    reveal_strlit("/latest");
    reveal_strlit("@deepseek-ai/dsh");
    reveal_strlit("https://registry.npmjs.org");
    reveal_strlit("https://registry.npmmirror.com");
    reveal_strlit("/@deepseek-ai/dsh/latest");
    reveal_strlit("https://registry.npmjs.org/@deepseek-ai/dsh/latest");
    reveal_strlit("https://registry.npmmirror.com/@deepseek-ai/dsh/latest");
    let base = text::without_trailing(own, '/');
    assert(latest_url(own) =~= own + "/@deepseek-ai/dsh/latest"@);
    assert(latest_url(base) =~= base + "/@deepseek-ai/dsh/latest"@);
    assert(latest_url(DEFAULT_NPM_REGISTRY@)
        =~= "https://registry.npmjs.org/@deepseek-ai/dsh/latest"@);
    assert(latest_url(NPM_MIRROR_REGISTRY@)
        =~= "https://registry.npmmirror.com/@deepseek-ai/dsh/latest"@);
}

/// The registry of an address is what stands before the first scope, without
/// slashes at its end; where there is no scope, it is the whole address.
pub proof fn a_registry_stands_before_the_scope(
    url: Seq<char>,
    registry: Seq<char>,
    rest: Seq<char>,
)
    ensures
        !text::holds(url, "/@deepseek-ai/"@) ==> origin_of(url) == text::without_trailing(url, '/'),
        url == registry + "/@deepseek-ai/"@ + rest && (forall|j: int|
            0 <= j < registry.len() ==> !text::occurs_at(url, "/@deepseek-ai/"@, j)) ==> origin_of(
            url,
        ) == text::without_trailing(registry, '/'),
{
    let scope = "/@deepseek-ai/"@;
    text::find_from_is_first(url, scope, 0);
    if url == registry + scope + rest && (forall|j: int|
        0 <= j < registry.len() ==> !text::occurs_at(url, scope, j)) {
        let at = registry.len() as int;
        assert(url.subrange(at, at + scope.len()) =~= scope);
        assert(text::occurs_at(url, scope, at));
        assert(url.take(at) =~= registry);
    }
}

/// What a source is called, by the host in its address.
pub proof fn sources_are_named_by_their_host(url: Seq<char>)
    ensures
        text::holds(url, "npmmirror.com"@) ==> label_of(url) == "npmmirror"@,
        !text::holds(url, "npmmirror.com"@) && text::holds(url, "registry.npmjs.org"@) ==> label_of(
            url,
        ) == "npm"@,
        !text::holds(url, "npmmirror.com"@) && !text::holds(url, "registry.npmjs.org"@)
            ==> label_of(url) == "npm registry"@,
{
}

/// A failure is named by what its text holds: a missing page first, then a
/// timeout, then the number behind the first mention of HTTP; else it is a
/// failed connection.
pub proof fn failures_are_named_by_their_cause(error: Seq<char>)
    ensures
        ({
            let small = text::lower_case(error);
            let missing = text::holds(error, "404"@);
            let late = text::holds(small, "timed out"@) || text::holds(small, "timeout"@);
            &&& missing ==> fetch_failure(error) == "返回 404"@
            &&& !missing && late ==> fetch_failure(error) == "连接超时"@
            &&& !missing && !late ==> (match text::cut(error, "HTTP "@) {
                Some(halves) => {
                    let code = text::leading_digits(halves.1);
                    fetch_failure(error) == (if code.len() > 0 {
                        "HTTP "@ + code
                    } else {
                        "连接失败"@
                    })
                },
                None => fetch_failure(error) == "连接失败"@,
            })
        }),
{
    let small = text::lower_case(error);
    reveal_strlit("404");
    reveal_strlit("HTTP ");
    let page = "404"@;
    assert forall|at: int| text::occurs_at(error, page, at) <==> #[trigger] text::occurs_at(
        small,
        page,
        at,
    ) by {
        if 0 <= at && at + 3 <= error.len() {
            let left = error.subrange(at, at + 3);
            let right = small.subrange(at, at + 3);
            if left == page {
                assert(error[at] == left[0] && error[at + 1] == left[1] && error[at + 2]
                    == left[2]);
                assert(right =~= page);
            }
            if right == page {
                assert(small[at] == right[0] && small[at + 1] == right[1] && small[at + 2]
                    == right[2]);
                assert(left =~= page);
            }
        }
    }
    if text::holds(error, page) {
        let at = choose|at: int| text::occurs_at(error, page, at);
        assert(text::occurs_at(small, page, at));
    }
    if text::holds(small, page) {
        let at = choose|at: int| text::occurs_at(small, page, at);
        assert(text::occurs_at(error, page, at));
    }
    let sep = "HTTP "@;
    text::find_from_is_first(error, sep, 0);
    match text::find(error, sep) {
        Some(at) => {
            let rest = error.skip(at + 5);
            text::split_has_clean_parts(rest, sep);
            text::find_from_is_first(rest, sep, 0);
            assert(text::split(error, sep)[1] == text::split(rest, sep)[0]);
            match text::find(rest, sep) {
                Some(end) => {
                    assert(rest.subrange(end, end + 5)[0] == 'H');
                    assert(rest[end] == 'H');
                    digits_stop_at_a_letter(rest, end);
                },
                None => {},
            }
        },
        None => {},
    }
}

proof fn digits_stop_at_a_letter(text: Seq<char>, end: int)
    requires
        0 <= end < text.len(),
        text[end] == 'H',
    ensures
        text::leading_digits(text.take(end)) == text::leading_digits(text),
{
    let part = text.take(end);
    let short = text::leading_digits(part);
    let long = text::leading_digits(text);
    text::leading_digits_are_the_longest(text);
    text::leading_digits_are_the_longest(part);
    if short.len() < long.len() {
        if (short.len() as int) < end {
            assert(part[short.len() as int] == text[short.len() as int]);
        }
        assert(48 <= text[short.len() as int] as int <= 57);
    }
    if long.len() < short.len() {
        assert(part[long.len() as int] == text[long.len() as int]);
        assert(48 <= part[long.len() as int] as int <= 57);
    }
    assert(short =~= long);
}

/// What a check comes to: nothing where the latest version is not newer, an offer
/// of exactly that version where it is and Node will do, and else a word on the
/// Node that is wanted and the one that is there.
pub proof fn a_check_comes_to_one_of_three(
    latest: LatestView,
    current_version: Seq<char>,
    node_version: Seq<char>,
    wanted: Seq<char>,
)
    ensures
        ({
            let r = selected(latest, current_version, node_version);
            let is_newer = versions::newer(latest.version, current_version);
            let node_ok = versions::meets(node_version, latest.node);
            &&& !is_newer ==> r == CheckResult::Latest
            &&& is_newer && node_ok ==> r == CheckResult::Available(
                ReleaseView { version: latest.version, registry: latest.registry },
            )
            &&& is_newer && !node_ok && latest.node == Some(wanted) ==> r
                == CheckResult::NeedsDesktop(
                "npm latest DSH "@ + latest.version + " 需要 Node "@ + wanted
                    + "，当前随包 Node 为 "@ + node_version,
            )
            &&& is_newer && !node_ok ==> latest.node is Some
        }),
{
}

/// What a check comes to, given the two questions that decide it.
pub proof fn a_choice_follows_from_two_questions(
    latest: LatestView,
    node_version: Seq<char>,
    node_ok: bool,
)
    ensures
        choice(latest, node_version, false, node_ok) == CheckResult::Latest,
        choice(latest, node_version, true, true) == CheckResult::Available(
            ReleaseView { version: latest.version, registry: latest.registry },
        ),
        choice(latest, node_version, true, false) == CheckResult::NeedsDesktop(
            "npm latest DSH "@ + latest.version + " 需要 Node "@ + (match latest.node {
                Some(requirement) => requirement,
                None => "未知"@,
            }) + "，当前随包 Node 为 "@ + node_version,
        ),
{
}

/// What is installed is the official package in the version that was chosen.
pub proof fn the_official_package_is_installed(version: Seq<char>)
    ensures
        release_spec(version) == "@deepseek-ai/dsh@"@ + version,
{
    reveal_strlit("@deepseek-ai/dsh");
    reveal_strlit("@");
    reveal_strlit("@deepseek-ai/dsh@");
    assert(release_spec(version) =~= "@deepseek-ai/dsh@"@ + version);
}

/// An installation is good where the package says that it is the version that was
/// wanted and its program is there, and in no other case; and each way in which
/// it is not good has its own words.
pub proof fn an_installation_is_what_was_wanted(
    installed: Option<Result<Option<Seq<char>>, Seq<char>>>,
    version: Seq<char>,
    entry_complete: bool,
)
    ensures
        installation_result(installed, version, entry_complete) is Ok <==> installed == Some(
            Ok::<Option<Seq<char>>, Seq<char>>(Some(version)),
        ) && entry_complete,
        installed is None ==> installation_result(installed, version, entry_complete) == Err::<
            (),
            Seq<char>,
        >("安装结果缺少官方 package.json"@),
        installed matches Some(Err(reason)) ==> installation_result(
            installed,
            version,
            entry_complete,
        ) == Err::<(), Seq<char>>(reason),
        installed matches Some(Ok(None)) ==> installation_result(installed, version, entry_complete)
            == Err::<(), Seq<char>>("安装结果缺少版本号"@),
        installed matches Some(Ok(Some(other))) ==> other != version ==> installation_result(
            installed,
            version,
            entry_complete,
        ) == Err::<(), Seq<char>>("安装到的 DSH 版本是 "@ + other + "，期望 "@ + version),
        installed matches Some(Ok(Some(other))) ==> other == version && !entry_complete
            ==> installation_result(installed, version, entry_complete) == Err::<(), Seq<char>>(
            "安装结果缺少 lib/bin.js"@,
        ),
{
}

/// The version of a package is the text of the first field of that name in its
/// description; a description that cannot be read is an error.
pub proof fn a_package_states_its_version(source: Seq<char>)
    ensures
        match json::json_node(source) {
            JsonView::Invalid(reason) => stated_version(source) == Err::<
                Option<Seq<char>>,
                Seq<char>,
            >(reason),
            JsonView::Table(fields) => match json::lookup(fields, "version"@) {
                Some(field) => match json::json_node(field) {
                    JsonView::Text(version) => stated_version(source) == Ok::<
                        Option<Seq<char>>,
                        Seq<char>,
                    >(Some(version)),
                    _ => stated_version(source) == Ok::<Option<Seq<char>>, Seq<char>>(None),
                },
                None => stated_version(source) == Ok::<Option<Seq<char>>, Seq<char>>(None),
            },
            _ => stated_version(source) == Ok::<Option<Seq<char>>, Seq<char>>(None),
        },
{
}

/// The words of a result are those of its error.
pub proof fn an_outcome_keeps_its_reason(r: Result<(), String>)
    ensures
        outcome(r) is Ok <==> r is Ok,
        r matches Err(reason) ==> outcome(r) == Err::<(), Seq<char>>(reason@),
{
}

/// npm is called to install the official package in the version that was chosen,
/// and nothing else.
pub proof fn npm_installs_the_chosen_version(version: &str, r: Vec<String>)
    requires
        call_ensures(install_arguments, (version,), r),
    ensures
        text::texts(r@) == seq![
            "install"@,
            "@deepseek-ai/dsh@"@ + version@,
            "--omit=dev"@,
            "--no-audit"@,
            "--no-fund"@,
            "--no-package-lock"@,
            "--prefix"@,
        ],
{
    the_official_package_is_installed(version@);
}

/// What npm prints is noted without the white space around it, and blank lines are
/// not noted.
pub proof fn blank_lines_are_not_noted(line: &str, r: Option<String>)
    requires
        call_ensures(progress_note, (line,), r),
    ensures
        r is None <==> text::trimmed(line@).len() == 0,
        r matches Some(note) ==> note@ == text::trimmed(line@),
{
}

/// A failed installation names the package and how npm has ended.
pub proof fn a_failed_npm_is_reported(version: &str, status: &str, r: String)
    requires
        call_ensures(install_failure, (version, status), r),
    ensures
        r@ == "npm 安装 "@ + "@deepseek-ai/dsh@"@ + version@ + " 失败："@ + status@,
{
    the_official_package_is_installed(version@);
    assert("npm 安装 "@ + ("@deepseek-ai/dsh@"@ + version@) =~= "npm 安装 "@
        + "@deepseek-ai/dsh@"@ + version@);
}

} // verus!
