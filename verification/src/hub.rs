//! The plugin market: what it is asked for, and what is shown of its answers.

use vstd::prelude::*;
use vstd::string::*;
use vstd::utf8::*;

use crate::plugin_spec;
use crate::text;

verus! {

/// Where the market answers.
pub const HUB_API: &'static str = "https://dsh-hub.cc/api/v1";

/// How many plugins a page shows.
pub const HUB_LIMIT: u32 = 20;

/// The most bytes that the words of a search may take.
pub const MAX_QUERY_BYTES: usize = 80;

/// The most bytes that a category may take.
pub const MAX_CATEGORY_BYTES: usize = 32;

/// The most bytes that the owner or the name of a plugin may take.
pub const MAX_SEGMENT_BYTES: usize = 100;

// ---------------------------------------------------------------------------
// What the market says, and what is shown of it
// ---------------------------------------------------------------------------
/// A page of plugins, as the market gives it.
#[derive(Debug)]
pub struct HubListResponse {
    pub items: Vec<HubListItem>,
    pub total: u32,
}

/// A plugin on such a page.
#[derive(Debug)]
pub struct HubListItem {
    pub owner: String,
    pub name: String,
    pub full_name: Option<String>,
    pub description: Option<String>,
    pub stars: Option<u64>,
    pub forks: Option<u64>,
    pub category: Option<String>,
    pub homepage: Option<String>,
    pub repository_url: Option<String>,
    pub topics: Option<Vec<String>>,
    pub pushed_at: Option<String>,
}

/// One plugin, as the market gives it.
#[derive(Debug)]
pub struct HubDetail {
    pub owner: String,
    pub name: String,
    pub full_name: Option<String>,
    pub description: Option<String>,
    pub stars: Option<u64>,
    pub forks: Option<u64>,
    pub category: Option<String>,
    pub license: Option<String>,
    pub homepage: Option<String>,
    pub repository_url: Option<String>,
    pub topics: Option<Vec<String>>,
    pub pushed_at: Option<String>,
    pub manifest: Option<HubManifest>,
}

/// The package of a plugin, as the market gives it.
#[derive(Debug)]
pub struct HubManifest {
    pub name: Option<String>,
    pub version: Option<String>,
}

/// A plugin of the market, as it is shown in a list.
#[derive(Debug)]
pub struct HubPlugin {
    pub owner: String,
    pub name: String,
    pub full_name: String,
    pub description: String,
    pub stars: u64,
    pub forks: u64,
    pub category: String,
    pub homepage: String,
    pub repository_url: String,
    pub topics: Vec<String>,
    pub pushed_at: String,
}

/// What a `HubPlugin` says.
#[verifier::ext_equal]
pub struct HubPluginView {
    pub owner: Seq<char>,
    pub name: Seq<char>,
    pub full_name: Seq<char>,
    pub description: Seq<char>,
    pub stars: u64,
    pub forks: u64,
    pub category: Seq<char>,
    pub homepage: Seq<char>,
    pub repository_url: Seq<char>,
    pub topics: Seq<Seq<char>>,
    pub pushed_at: Seq<char>,
}

impl View for HubPlugin {
    type V = HubPluginView;

    open spec fn view(&self) -> HubPluginView {
        HubPluginView {
            owner: self.owner@,
            name: self.name@,
            full_name: self.full_name@,
            description: self.description@,
            stars: self.stars,
            forks: self.forks,
            category: self.category@,
            homepage: self.homepage@,
            repository_url: self.repository_url@,
            topics: text::texts(self.topics@),
            pushed_at: self.pushed_at@,
        }
    }
}

/// A plugin of the market, as it is shown by itself.
#[derive(Debug)]
pub struct HubPluginDetail {
    pub owner: String,
    pub name: String,
    pub full_name: String,
    pub description: String,
    pub stars: u64,
    pub forks: u64,
    pub category: String,
    pub license: String,
    pub homepage: String,
    pub repository_url: String,
    pub topics: Vec<String>,
    pub package_name: String,
    pub version: String,
    pub pushed_at: String,
}

/// What a `HubPluginDetail` says.
#[verifier::ext_equal]
pub struct HubDetailView {
    pub owner: Seq<char>,
    pub name: Seq<char>,
    pub full_name: Seq<char>,
    pub description: Seq<char>,
    pub stars: u64,
    pub forks: u64,
    pub category: Seq<char>,
    pub license: Seq<char>,
    pub homepage: Seq<char>,
    pub repository_url: Seq<char>,
    pub topics: Seq<Seq<char>>,
    pub package_name: Seq<char>,
    pub version: Seq<char>,
    pub pushed_at: Seq<char>,
}

impl View for HubPluginDetail {
    type V = HubDetailView;

    open spec fn view(&self) -> HubDetailView {
        HubDetailView {
            owner: self.owner@,
            name: self.name@,
            full_name: self.full_name@,
            description: self.description@,
            stars: self.stars,
            forks: self.forks,
            category: self.category@,
            license: self.license@,
            homepage: self.homepage@,
            repository_url: self.repository_url@,
            topics: text::texts(self.topics@),
            package_name: self.package_name@,
            version: self.version@,
            pushed_at: self.pushed_at@,
        }
    }
}

/// A page of plugins, as it is shown.
#[derive(Debug)]
pub struct HubPage {
    pub items: Vec<HubPlugin>,
    pub total: u32,
}

/// What a `HubPage` says.
#[verifier::ext_equal]
pub struct HubPageView {
    pub items: Seq<HubPluginView>,
    pub total: u32,
}

impl View for HubPage {
    type V = HubPageView;

    open spec fn view(&self) -> HubPageView {
        HubPageView {
            items: self.items@.map_values(|item: HubPlugin| item@),
            total: self.total,
        }
    }
}

/// A text that may be missing: nothing where it is.
pub open spec fn or_empty(item: Option<String>) -> Seq<char> {
    match item {
        Some(content) => content@,
        None => Seq::empty(),
    }
}

/// A number that may be missing: zero where it is.
pub open spec fn or_zero(item: Option<u64>) -> u64 {
    match item {
        Some(value) => value,
        None => 0,
    }
}

/// A list that may be missing: nothing where it is.
pub open spec fn or_none(item: Option<Vec<String>>) -> Seq<Seq<char>> {
    match item {
        Some(list) => text::texts(list@),
        None => Seq::empty(),
    }
}

fn text_or_empty(item: Option<String>) -> (r: String)
    ensures
        r@ == or_empty(item),
{
    match item {
        Some(content) => content,
        None => String::new(),
    }
}

fn number_or_zero(item: Option<u64>) -> (r: u64)
    ensures
        r == or_zero(item),
{
    match item {
        Some(value) => value,
        None => 0,
    }
}

fn list_or_none(item: Option<Vec<String>>) -> (r: Vec<String>)
    ensures
        text::texts(r@) == or_none(item),
{
    match item {
        Some(list) => list,
        None => {
            let r: Vec<String> = Vec::new();
            assert(text::texts(r@) =~= Seq::<Seq<char>>::empty());
            r
        },
    }
}

/// What is shown of a plugin on a page.
pub open spec fn shown(item: HubListItem) -> HubPluginView {
    HubPluginView {
        owner: item.owner@,
        name: item.name@,
        full_name: or_empty(item.full_name),
        description: or_empty(item.description),
        stars: or_zero(item.stars),
        forks: or_zero(item.forks),
        category: or_empty(item.category),
        homepage: or_empty(item.homepage),
        repository_url: or_empty(item.repository_url),
        topics: or_none(item.topics),
        pushed_at: or_empty(item.pushed_at),
    }
}

/// What is shown of a plugin on a page.
pub fn show_item(item: HubListItem) -> (r: HubPlugin)
    ensures
        r@ == shown(item),
{
    HubPlugin {
        owner: item.owner,
        name: item.name,
        full_name: text_or_empty(item.full_name),
        description: text_or_empty(item.description),
        stars: number_or_zero(item.stars),
        forks: number_or_zero(item.forks),
        category: text_or_empty(item.category),
        homepage: text_or_empty(item.homepage),
        repository_url: text_or_empty(item.repository_url),
        topics: list_or_none(item.topics),
        pushed_at: text_or_empty(item.pushed_at),
    }
}

// ---------------------------------------------------------------------------
// Segments of addresses
// ---------------------------------------------------------------------------
/// A character that may follow the first one of an owner or a name.
pub open spec fn segment_char(item: char) -> bool {
    text::is_alnum(item) || item == '.' || item == '_' || item == '-'
}

/// The owner or the name of a plugin.
pub open spec fn segment(value: Seq<char>) -> bool {
    &&& value.len() > 0
    &&& text::utf8_len(value) <= MAX_SEGMENT_BYTES
    &&& !text::holds(value, ".."@)
    &&& !value.contains('/')
    &&& text::is_alnum(value[0])
    &&& forall|i: int| 1 <= i < value.len() ==> segment_char(#[trigger] value[i])
}

/// Whether this may be the owner or the name of a plugin.
pub fn is_hub_segment(value: &str) -> (r: bool)
    ensures
        r == segment(value@),
{
    let items = text::chars_of(value);
    if items.len() == 0 || text::byte_len(value) > MAX_SEGMENT_BYTES || text::contains(value, "..")
        || text::contains_char(value, '/') || !text::alnum(items[0]) {
        return false;
    }
    let mut i: usize = 1;
    while i < items.len()
        invariant
            1 <= i <= items@.len(),
            items@ == value@,
            forall|j: int| 1 <= j < i ==> segment_char(#[trigger] value@[j]),
        decreases items@.len() - i,
    {
        let item = items[i];
        if !(text::alnum(item) || item == '.' || item == '_' || item == '-') {
            assert(!segment_char(value@[i as int]));
            return false;
        }
        i += 1;
    }
    true
}

/// A hexadecimal digit with capital letters.
pub open spec fn big_hex(value: int) -> char {
    if value < 10 {
        ('0' as int + value) as char
    } else {
        ('A' as int + value - 10) as char
    }
}

/// A character that stands for itself in an address.
pub open spec fn kept(item: char) -> bool {
    text::is_alnum(item) || item == '-' || item == '_' || item == '.' || item == '~'
}

/// How a byte is written in an address.
pub open spec fn encoded_byte(byte: u8) -> Seq<char> {
    if kept(byte as char) {
        seq![byte as char]
    } else {
        seq!['%', big_hex(byte as int / 16), big_hex(byte as int % 16)]
    }
}

/// How bytes are written in an address.
pub open spec fn encoded_bytes(bytes: Seq<u8>) -> Seq<char>
    decreases bytes.len(),
{
    if bytes.len() == 0 {
        Seq::empty()
    } else {
        encoded_bytes(bytes.drop_last()) + encoded_byte(bytes.last())
    }
}

/// How a text is written in an address: by its UTF-8 bytes.
pub open spec fn encoded(value: Seq<char>) -> Seq<char> {
    encoded_bytes(encode_utf8(value))
}

fn hex_digit(value: u8) -> (r: char)
    requires
        value < 16,
    ensures
        r == big_hex(value as int),
{
    if value < 10 {
        (48 + value) as char
    } else {
        (55 + value) as char
    }
}

/// How a text is written in an address.
pub fn query_encode(value: &str) -> (r: String)
    ensures
        r@ == encoded(value@),
{
    let bytes = value.as_bytes();
    let mut out = String::new();
    let mut i: usize = 0;
    assert(bytes@.take(0) =~= Seq::<u8>::empty());
    while i < bytes.len()
        invariant
            i <= bytes@.len(),
            out@ == encoded_bytes(bytes@.take(i as int)),
        decreases bytes@.len() - i,
    {
        let byte = bytes[i];
        assert(bytes@.take(i + 1).drop_last() =~= bytes@.take(i as int));
        let item = byte as char;
        let ghost before = out@;
        if text::alnum(item) || item == '-' || item == '_' || item == '.' || item == '~' {
            out.push(item);
            assert(out@ =~= before + seq![item]);
        } else {
            out.push('%');
            out.push(hex_digit(byte / 16));
            out.push(hex_digit(byte % 16));
            assert(out@ =~= before + encoded_byte(byte));
        }
        i += 1;
    }
    assert(bytes@.take(bytes@.len() as int) =~= bytes@);
    out
}

// ---------------------------------------------------------------------------
// Questions
// ---------------------------------------------------------------------------
/// The order of a page, or why there is none of that name.
pub open spec fn sort_of(value: Seq<char>) -> Result<Seq<char>, Seq<char>> {
    let name = text::trimmed(value);
    if name.len() == 0 || name == "trending"@ {
        Ok("trending"@)
    } else if name == "stars"@ {
        Ok("stars"@)
    } else {
        Err("排序无效。"@)
    }
}

/// The order of a page, or why there is none of that name.
pub fn normalize_hub_sort(value: &str) -> (r: Result<&'static str, String>)
    ensures
        match r {
            Ok(name) => sort_of(value@) == Ok::<Seq<char>, Seq<char>>(name@),
            Err(message) => sort_of(value@) == Err::<Seq<char>, Seq<char>>(message@),
        },
{
    let name = text::trim(value);
    if name.is_empty() || text::same(name, "trending") {
        Ok("trending")
    } else if text::same(name, "stars") {
        Ok("stars")
    } else {
        Err("排序无效。".to_string())
    }
}

/// A further part of an address: nothing where there is nothing to ask.
pub open spec fn query_part(name: Seq<char>, value: Seq<char>) -> Seq<char> {
    if value.len() == 0 {
        Seq::empty()
    } else {
        name + encoded(value)
    }
}

/// Where a page of plugins is found, or why it cannot be asked for.
pub open spec fn page_url(
    query: Seq<char>,
    category: Seq<char>,
    sort: Seq<char>,
    offset: u32,
) -> Result<Seq<char>, Seq<char>> {
    let words = text::trimmed(query);
    let kind = text::trimmed(category);
    if text::utf8_len(words) > MAX_QUERY_BYTES {
        Err("搜索词过长。"@)
    } else if text::utf8_len(kind) > MAX_CATEGORY_BYTES {
        Err("分类无效。"@)
    } else {
        match sort_of(sort) {
            Err(message) => Err(message),
            Ok(order) => {
                let base = HUB_API@ + "/plugins?scope=verified&sort="@ + order + "&limit="@
                    + text::decimal(HUB_LIMIT as nat) + "&offset="@ + text::decimal(offset as nat);
                let all = "全部"@;
                Ok(
                    base + query_part("&q="@, words) + (if kind == all {
                        Seq::empty()
                    } else {
                        query_part("&category="@, kind)
                    }),
                )
            },
        }
    }
}

/// Where a page of plugins is found, or why it cannot be asked for.
pub fn search_url(query: &str, category: &str, sort: &str, offset: u32) -> (r: Result<
    String,
    String,
>)
    ensures
        text::result_view(r) == page_url(query@, category@, sort@, offset),
{
    let words = text::trim(query);
    if text::byte_len(words) > MAX_QUERY_BYTES {
        return Err("搜索词过长。".to_string());
    }
    let kind = text::trim(category);
    if text::byte_len(kind) > MAX_CATEGORY_BYTES {
        return Err("分类无效。".to_string());
    }
    let order = match normalize_hub_sort(sort) {
        Ok(name) => name,
        Err(message) => {
            return Err(message);
        },
    };
    let mut url = text::join3(HUB_API, "/plugins?scope=verified&sort=", order);
    url.append("&limit=");
    url.append(text::decimal_text(HUB_LIMIT as u64).as_str());
    url.append("&offset=");
    url.append(text::decimal_text(offset as u64).as_str());
    let ghost base = url@;
    if !words.is_empty() {
        url.append("&q=");
        url.append(query_encode(words).as_str());
    }
    assert(url@ =~= base + query_part("&q="@, text::trimmed(query@)));
    let ghost asked = url@;
    if !kind.is_empty() && !text::same(kind, "全部") {
        url.append("&category=");
        url.append(query_encode(kind).as_str());
    }
    proof {
        let tail = if kind@ == "全部"@ {
            Seq::empty()
        } else {
            query_part("&category="@, kind@)
        };
        assert(url@ =~= asked + tail);
    }
    Ok(url)
}

/// The plugins of a page that are shown: those whose owner and name can stand
/// in an address.
pub open spec fn shown_items(items: Seq<HubListItem>) -> Seq<HubPluginView>
    decreases items.len(),
{
    if items.len() == 0 {
        Seq::empty()
    } else {
        let before = shown_items(items.drop_last());
        let item = items.last();
        if segment(item.owner@) && segment(item.name@) {
            before.push(shown(item))
        } else {
            before
        }
    }
}

/// What is shown of a page.
pub open spec fn shown_page(list: HubListResponse) -> HubPageView {
    HubPageView { items: shown_items(list.items@), total: list.total }
}

/// What is shown of a page.
pub fn show_page(list: HubListResponse) -> (r: HubPage)
    ensures
        r@ == shown_page(list),
{
    let total = list.total;
    let mut items: Vec<HubPlugin> = Vec::new();
    assert(items@.map_values(|item: HubPlugin| item@) =~= Seq::<HubPluginView>::empty());
    for item in it: list.items
        invariant
            items@.map_values(|item: HubPlugin| item@) == shown_items(
                it.seq().take(it.index() as int),
            ),
    {
        proof {
            let part = it.seq().take(it.index() + 1);
            assert(part.drop_last() =~= it.seq().take(it.index() as int));
            assert(part.last() == item);
        }
        if is_hub_segment(item.owner.as_str()) && is_hub_segment(item.name.as_str()) {
            let ghost before = items@.map_values(|item: HubPlugin| item@);
            let entry = show_item(item);
            items.push(entry);
            assert(items@.map_values(|item: HubPlugin| item@) =~= before.push(entry@));
        }
    }
    assert(list.items@.take(list.items@.len() as int) =~= list.items@);
    HubPage { items, total }
}

/// What comes of asking for a page.
pub open spec fn page_result(reply: Result<HubListResponse, String>) -> Result<
    HubPageView,
    Seq<char>,
> {
    match reply {
        Ok(list) => Ok(shown_page(list)),
        Err(message) => Err(message@),
    }
}

/// What a page or its failure says.
pub open spec fn page_opt(r: Result<HubPage, String>) -> Result<HubPageView, Seq<char>> {
    match r {
        Ok(page) => Ok(page@),
        Err(message) => Err(message@),
    }
}

/// A page of plugins; `fetch` asks the market.
pub fn search_hub<F: FnOnce(&str) -> Result<HubListResponse, String>>(
    query: String,
    category: String,
    sort: String,
    offset: u32,
    fetch: F,
) -> (r: Result<HubPage, String>)
    requires
        forall|address: &str| call_requires(fetch, (address,)),
    ensures
        match page_url(query@, category@, sort@, offset) {
            Err(message) => page_opt(r) == Err::<HubPageView, Seq<char>>(message),
            Ok(url) => exists|address: &str, reply: Result<HubListResponse, String>|
                address@ == url && #[trigger] call_ensures(fetch, (address,), reply) && page_opt(r)
                    == page_result(reply),
        },
{
    let url = match search_url(query.as_str(), category.as_str(), sort.as_str(), offset) {
        Ok(address) => address,
        Err(message) => {
            return Err(message);
        },
    };
    match fetch(url.as_str()) {
        Ok(list) => Ok(show_page(list)),
        Err(message) => Err(message),
    }
}

/// Where one plugin is found.
pub open spec fn detail_url(owner: Seq<char>, name: Seq<char>) -> Seq<char> {
    HUB_API@ + "/plugins/"@ + encoded(owner) + "/"@ + encoded(name)
}

/// What the market says of one plugin; `fetch` asks it.
pub fn fetch_hub_detail<F: FnOnce(&str) -> Result<HubDetail, String>>(
    owner: &str,
    name: &str,
    fetch: F,
) -> (r: Result<HubDetail, String>)
    requires
        forall|address: &str| call_requires(fetch, (address,)),
    ensures
        exists|address: &str|
            address@ == detail_url(owner@, name@) && #[trigger] call_ensures(fetch, (address,), r),
{
    let mut url = text::join3(HUB_API, "/plugins/", query_encode(owner).as_str());
    url.append("/");
    url.append(query_encode(name).as_str());
    fetch(url.as_str())
}

/// What is shown of one plugin.
pub open spec fn shown_detail(detail: HubDetail) -> HubDetailView {
    HubDetailView {
        owner: detail.owner@,
        name: detail.name@,
        full_name: or_empty(detail.full_name),
        description: or_empty(detail.description),
        stars: or_zero(detail.stars),
        forks: or_zero(detail.forks),
        category: or_empty(detail.category),
        license: or_empty(detail.license),
        homepage: or_empty(detail.homepage),
        repository_url: or_empty(detail.repository_url),
        topics: or_none(detail.topics),
        package_name: match detail.manifest {
            Some(manifest) => or_empty(manifest.name),
            None => Seq::empty(),
        },
        version: match detail.manifest {
            Some(manifest) => or_empty(manifest.version),
            None => Seq::empty(),
        },
        pushed_at: or_empty(detail.pushed_at),
    }
}

/// What is shown of one plugin.
pub fn show_detail(detail: HubDetail) -> (r: HubPluginDetail)
    ensures
        r@ == shown_detail(detail),
{
    let manifest = match detail.manifest {
        Some(manifest) => manifest,
        None => HubManifest { name: None, version: None },
    };
    HubPluginDetail {
        owner: detail.owner,
        name: detail.name,
        full_name: text_or_empty(detail.full_name),
        description: text_or_empty(detail.description),
        stars: number_or_zero(detail.stars),
        forks: number_or_zero(detail.forks),
        category: text_or_empty(detail.category),
        license: text_or_empty(detail.license),
        homepage: text_or_empty(detail.homepage),
        repository_url: text_or_empty(detail.repository_url),
        topics: list_or_none(detail.topics),
        package_name: text_or_empty(manifest.name),
        version: text_or_empty(manifest.version),
        pushed_at: text_or_empty(detail.pushed_at),
    }
}

/// What one plugin or the failure to get it says.
pub open spec fn detail_opt(r: Result<HubPluginDetail, String>) -> Result<
    HubDetailView,
    Seq<char>,
> {
    match r {
        Ok(detail) => Ok(detail@),
        Err(message) => Err(message@),
    }
}

/// What comes of asking for one plugin.
pub open spec fn detail_result(reply: Result<HubDetail, String>) -> Result<
    HubDetailView,
    Seq<char>,
> {
    match reply {
        Ok(detail) => Ok(shown_detail(detail)),
        Err(message) => Err(message@),
    }
}

/// One plugin of the market; `fetch` asks it.
pub fn get_hub<F: FnOnce(&str) -> Result<HubDetail, String>>(
    owner: String,
    name: String,
    fetch: F,
) -> (r: Result<HubPluginDetail, String>)
    requires
        forall|address: &str| call_requires(fetch, (address,)),
    ensures
        !(segment(owner@) && segment(name@)) ==> detail_opt(r) == Err::<HubDetailView, Seq<char>>(
            "插件标识无效。"@,
        ),
        segment(owner@) && segment(name@) ==> exists|
            address: &str,
            reply: Result<HubDetail, String>,
        |
            address@ == detail_url(owner@, name@) && #[trigger] call_ensures(
                fetch,
                (address,),
                reply,
            ) && detail_opt(r) == detail_result(reply),
{
    if !is_hub_segment(owner.as_str()) || !is_hub_segment(name.as_str()) {
        return Err("插件标识无效。".to_string());
    }
    match fetch_hub_detail(owner.as_str(), name.as_str(), fetch) {
        Ok(detail) => Ok(show_detail(detail)),
        Err(message) => Err(message),
    }
}

/// The package of a plugin of the market, or why it cannot be installed.
pub open spec fn package_result(reply: Result<HubDetail, String>) -> Result<Seq<char>, Seq<char>> {
    match reply {
        Err(message) => Err(message@),
        Ok(detail) => match detail.manifest {
            Some(manifest) => match manifest.name {
                Some(name) => plugin_spec::parsed(name@),
                None => Err("这个插件没有可安装的 npm 包名。"@),
            },
            None => Err("这个插件没有可安装的 npm 包名。"@),
        },
    }
}

/// The package of a plugin of the market; `fetch` asks it.
pub fn hub_registry_spec<F: FnOnce(&str) -> Result<HubDetail, String>>(
    owner: &str,
    name: &str,
    fetch: F,
) -> (r: Result<String, String>)
    requires
        forall|address: &str| call_requires(fetch, (address,)),
    ensures
        exists|address: &str, reply: Result<HubDetail, String>|
            address@ == detail_url(owner@, name@) && #[trigger] call_ensures(
                fetch,
                (address,),
                reply,
            ) && text::result_view(r) == package_result(reply),
{
    match fetch_hub_detail(owner, name, fetch) {
        Err(message) => Err(message),
        Ok(detail) => match detail.manifest {
            Some(manifest) => match manifest.name {
                Some(package) => plugin_spec::parse_registry_spec(package.as_str()),
                None => Err("这个插件没有可安装的 npm 包名。".to_string()),
            },
            None => Err("这个插件没有可安装的 npm 包名。".to_string()),
        },
    }
}

/// The package to install for a plugin of the market, or why there is none;
/// `fetch` asks the market.
pub fn submit_hub_install<F: FnOnce(&str) -> Result<HubDetail, String>>(
    owner: String,
    name: String,
    fetch: F,
) -> (r: Result<String, String>)
    requires
        forall|address: &str| call_requires(fetch, (address,)),
    ensures
        !(segment(owner@) && segment(name@)) ==> text::result_view(r) == Err::<
            Seq<char>,
            Seq<char>,
        >("插件标识无效。"@),
        segment(owner@) && segment(name@) ==> exists|
            address: &str,
            reply: Result<HubDetail, String>,
        |
            address@ == detail_url(owner@, name@) && #[trigger] call_ensures(
                fetch,
                (address,),
                reply,
            ) && text::result_view(r) == package_result(reply),
{
    if !is_hub_segment(owner.as_str()) || !is_hub_segment(name.as_str()) {
        return Err("插件标识无效。".to_string());
    }
    hub_registry_spec(owner.as_str(), name.as_str(), fetch)
}

// ---------------------------------------------------------------------------
// Laws
// ---------------------------------------------------------------------------
/// A text in an address holds nothing but letters, digits, `-`, `_`, `.`, `~`
/// and `%`, so that it cannot break out of its place.
pub proof fn encoded_text_is_safe(value: Seq<char>)
    ensures
        forall|i: int|
            0 <= i < encoded(value).len() ==> kept(#[trigger] encoded(value)[i]) || encoded(
                value,
            )[i] == '%',
{
    encoded_bytes_are_safe(encode_utf8(value));
}

proof fn encoded_bytes_are_safe(bytes: Seq<u8>)
    ensures
        forall|i: int|
            0 <= i < encoded_bytes(bytes).len() ==> kept(#[trigger] encoded_bytes(bytes)[i])
                || encoded_bytes(bytes)[i] == '%',
    decreases bytes.len(),
{
    if bytes.len() > 0 {
        encoded_bytes_are_safe(bytes.drop_last());
        let all = encoded_bytes(bytes);
        let head = encoded_bytes(bytes.drop_last());
        let byte = bytes.last();
        let tail = encoded_byte(byte);
        assert(kept(big_hex(byte as int / 16)));
        assert(kept(big_hex(byte as int % 16)));
        assert forall|i: int| 0 <= i < all.len() implies kept(#[trigger] all[i]) || all[i]
            == '%' by {
            if i < head.len() {
                assert(all[i] == head[i]);
            } else {
                assert(all[i] == tail[i - head.len()]);
            }
        }
    }
}

/// A text of letters, digits, `-`, `_`, `.` and `~` stands in an address as it
/// is.
pub proof fn plain_text_is_kept(value: Seq<char>)
    requires
        forall|i: int| 0 <= i < value.len() ==> kept(#[trigger] value[i]),
    ensures
        encoded(value) == value,
    decreases value.len(),
{
    assert(is_ascii_chars(value)) by {
        assert forall|i: int| 0 <= i < value.len() implies (#[trigger] value[i]) as nat <= 127 by {
            assert(kept(value[i]));
        }
    }
    is_ascii_chars_encode_utf8(value);
    let bytes = encode_utf8(value);
    plain_bytes_are_kept(bytes);
    assert(encoded_bytes(bytes) =~= value);
}

proof fn plain_bytes_are_kept(bytes: Seq<u8>)
    requires
        forall|i: int| 0 <= i < bytes.len() ==> kept(#[trigger] bytes[i] as char),
    ensures
        encoded_bytes(bytes).len() == bytes.len(),
        forall|i: int|
            0 <= i < bytes.len() ==> #[trigger] encoded_bytes(bytes)[i] == bytes[i] as char,
    decreases bytes.len(),
{
    if bytes.len() > 0 {
        let shorter = bytes.drop_last();
        assert forall|i: int| 0 <= i < shorter.len() implies kept(
            #[trigger] shorter[i] as char,
        ) by {
            assert(kept(bytes[i] as char));
        }
        plain_bytes_are_kept(shorter);
        let last = bytes.len() - 1;
        assert(kept(bytes[last] as char));
        assert forall|i: int| 0 <= i < bytes.len() implies #[trigger] encoded_bytes(bytes)[i]
            == bytes[i] as char by {
            if i < last {
                assert(encoded_bytes(bytes)[i] == encoded_bytes(shorter)[i]);
                assert(shorter[i] == bytes[i]);
            }
        }
    }
}

/// Every plugin that is shown can be asked for again by its owner and name,
/// and its address holds them as they are.
pub proof fn shown_plugins_can_be_asked_for(items: Seq<HubListItem>)
    ensures
        forall|i: int|
            0 <= i < shown_items(items).len() ==> segment((#[trigger] shown_items(items)[i]).owner)
                && segment(shown_items(items)[i].name),
        shown_items(items).len() <= items.len(),
    decreases items.len(),
{
    if items.len() > 0 {
        shown_plugins_can_be_asked_for(items.drop_last());
    }
}

/// Where a page is asked for with a category that is neither empty nor the one for
/// all of them, the address ends with that category, whatever is searched for.
pub proof fn a_category_is_always_asked_for(
    query: Seq<char>,
    category: Seq<char>,
    sort: Seq<char>,
    offset: u32,
)
    requires
        page_url(query, category, sort, offset) is Ok,
        text::trimmed(category).len() > 0,
        text::trimmed(category) != "全部"@,
    ensures
        ({
            let url = page_url(query, category, sort, offset)->Ok_0;
            let tail = "&category="@ + encoded(text::trimmed(category));
            &&& url.len() >= tail.len()
            &&& url.skip(url.len() - tail.len()) == tail
        }),
{
    let url = page_url(query, category, sort, offset)->Ok_0;
    let tail = "&category="@ + encoded(text::trimmed(category));
    assert(url.skip(url.len() - tail.len()) =~= tail);
}

/// The address of a page, word for word. The words that are searched for stand in
/// it where there are any, and so does the category where there is one; neither
/// depends on the other.
pub proof fn a_page_is_asked_for_word_for_word(
    query: Seq<char>,
    category: Seq<char>,
    sort: Seq<char>,
    offset: u32,
)
    requires
        page_url(query, category, sort, offset) is Ok,
    ensures
        ({
            let url = page_url(query, category, sort, offset)->Ok_0;
            let words = text::trimmed(query);
            let kind = text::trimmed(category);
            let order = if text::trimmed(sort) == "stars"@ {
                "stars"@
            } else {
                "trending"@
            };
            let base = "https://dsh-hub.cc/api/v1/plugins?scope=verified&sort="@ + order
                + "&limit=20&offset="@ + text::decimal(offset as nat);
            let narrow = kind.len() > 0 && kind != "全部"@;
            &&& words.len() == 0 && !narrow ==> url == base
            &&& words.len() > 0 && !narrow ==> url == base + "&q="@ + encoded(words)
            &&& words.len() == 0 && narrow ==> url == base + "&category="@ + encoded(kind)
            &&& words.len() > 0 && narrow ==> url == base + "&q="@ + encoded(words)
                + "&category="@ + encoded(kind)
        }),
{
    reveal_strlit("https://dsh-hub.cc/api/v1");
    reveal_strlit("/plugins?scope=verified&sort=");
    reveal_strlit("https://dsh-hub.cc/api/v1/plugins?scope=verified&sort=");
    reveal_strlit("&limit=");
    reveal_strlit("&offset=");
    reveal_strlit("&limit=20&offset=");
    reveal_with_fuel(text::decimal, 3);
    let url = page_url(query, category, sort, offset)->Ok_0;
    let words = text::trimmed(query);
    let kind = text::trimmed(category);
    let order = if text::trimmed(sort) == "stars"@ {
        "stars"@
    } else {
        "trending"@
    };
    assert(sort_of(sort) == Ok::<Seq<char>, Seq<char>>(order)) by {
        if text::trimmed(sort) == "stars"@ {
            reveal_strlit("stars");
            reveal_strlit("trending");
            assert("stars"@.len() == 5);
            assert("trending"@.len() == 8);
        }
    }
    assert(text::decimal(20) =~= seq!['2', '0']);
    let base = "https://dsh-hub.cc/api/v1/plugins?scope=verified&sort="@ + order
        + "&limit=20&offset="@ + text::decimal(offset as nat);
    let built = HUB_API@ + "/plugins?scope=verified&sort="@ + order + "&limit="@ + text::decimal(
        HUB_LIMIT as nat,
    ) + "&offset="@ + text::decimal(offset as nat);
    assert(built =~= base);
    let narrow = kind.len() > 0 && kind != "全部"@;
    if words.len() == 0 && !narrow {
        assert(url =~= base);
    } else if words.len() > 0 && !narrow {
        assert(url =~= base + "&q="@ + encoded(words));
    } else if words.len() == 0 {
        assert(url =~= base + "&category="@ + encoded(kind));
    } else {
        assert(url =~= base + "&q="@ + encoded(words) + "&category="@ + encoded(kind));
    }
}

/// A page can be asked for where the words have at most eighty bytes, the category
/// at most thirty-two, and the order is one of the two or none; else the first of
/// these that is not so is said.
pub proof fn a_page_is_refused_for_a_reason(
    query: Seq<char>,
    category: Seq<char>,
    sort: Seq<char>,
    offset: u32,
)
    ensures
        ({
            let r = page_url(query, category, sort, offset);
            let long = encode_utf8(text::trimmed(query)).len() > 80;
            let wide = encode_utf8(text::trimmed(category)).len() > 32;
            let order = text::trimmed(sort);
            let known = order.len() == 0 || order == "trending"@ || order == "stars"@;
            &&& r is Ok <==> !long && !wide && known
            &&& long ==> r == Err::<Seq<char>, Seq<char>>("搜索词过长。"@)
            &&& !long && wide ==> r == Err::<Seq<char>, Seq<char>>("分类无效。"@)
            &&& !long && !wide && !known ==> r == Err::<Seq<char>, Seq<char>>("排序无效。"@)
        }),
{
}

/// An order is one of two; none is the first of them.
pub proof fn an_order_is_one_of_two(value: Seq<char>)
    ensures
        text::trimmed(value).len() == 0 ==> sort_of(value) == Ok::<Seq<char>, Seq<char>>(
            "trending"@,
        ),
        text::trimmed(value) == "trending"@ ==> sort_of(value) == Ok::<Seq<char>, Seq<char>>(
            "trending"@,
        ),
        text::trimmed(value) == "stars"@ ==> sort_of(value) == Ok::<Seq<char>, Seq<char>>("stars"@),
        sort_of(value) is Ok ==> text::trimmed(value).len() == 0 || text::trimmed(value)
            == "trending"@ || text::trimmed(value) == "stars"@,
        sort_of(value) matches Err(message) ==> message == "排序无效。"@,
{
    reveal_strlit("stars");
    reveal_strlit("trending");
    assert("stars"@.len() == 5);
    assert("trending"@.len() == 8);
}

/// The value of a hexadecimal digit with capital letters.
pub open spec fn hex_value(digit: char) -> int {
    if 48 <= digit as int <= 57 {
        digit as int - 48
    } else {
        digit as int - 55
    }
}

/// The bytes that a text in an address stands for: a percent sign and two
/// hexadecimal digits for the byte of that number, any other character for
/// itself.
pub open spec fn decoded(written: Seq<char>) -> Seq<u8>
    decreases written.len(),
{
    let size = written.len() as int;
    if size == 0 {
        Seq::empty()
    } else if size >= 3 && written[size - 3] == '%' {
        decoded(written.take(size - 3)).push(
            (16 * hex_value(written[size - 2]) + hex_value(written[size - 1])) as u8,
        )
    } else {
        decoded(written.drop_last()).push(written.last() as u8)
    }
}

/// Nothing is lost in an address: the text is read back from it, byte for byte.
pub proof fn an_address_gives_its_text_back(value: Seq<char>)
    ensures
        decoded(encoded(value)) == encode_utf8(value),
{
    bytes_are_read_back(encode_utf8(value));
}

proof fn no_percent_sign_at_the_end(bytes: Seq<u8>)
    ensures
        ({
            let written = encoded_bytes(bytes);
            let size = written.len() as int;
            &&& size >= 1 ==> written[size - 1] != '%'
            &&& size >= 2 ==> written[size - 2] != '%'
        }),
    decreases bytes.len(),
{
    if bytes.len() > 0 {
        no_percent_sign_at_the_end(bytes.drop_last());
        let byte = bytes.last();
        assert(big_hex(byte as int / 16) != '%');
        assert(big_hex(byte as int % 16) != '%');
    }
}

proof fn bytes_are_read_back(bytes: Seq<u8>)
    ensures
        decoded(encoded_bytes(bytes)) == bytes,
    decreases bytes.len(),
{
    let written = encoded_bytes(bytes);
    if bytes.len() > 0 {
        let shorter = bytes.drop_last();
        let before = encoded_bytes(shorter);
        let byte = bytes.last();
        bytes_are_read_back(shorter);
        no_percent_sign_at_the_end(shorter);
        assert(shorter.push(byte) =~= bytes);
        let size = written.len() as int;
        if kept(byte as char) {
            assert(written.drop_last() =~= before);
            assert(written.last() == byte as char);
            assert((byte as char) as u8 == byte);
            if size >= 3 {
                assert(written[size - 3] == before[before.len() - 2]);
            }
        } else {
            let high = byte as int / 16;
            let low = byte as int % 16;
            assert(written.take(size - 3) =~= before);
            assert(written[size - 3] == '%');
            assert(hex_value(big_hex(high)) == high);
            assert(hex_value(big_hex(low)) == low);
            assert(16 * high + low == byte as int);
        }
    } else {
        assert(decoded(written) =~= bytes);
    }
}

/// Letters, digits, `-`, `_`, `.` and `~` stand for themselves in an address, and
/// every other byte is written with a percent sign.
pub proof fn bytes_are_written_one_by_one(bytes: Seq<u8>, byte: u8)
    ensures
        encoded_bytes(Seq::empty()) == Seq::<char>::empty(),
        encoded_bytes(bytes.push(byte)) == encoded_bytes(bytes) + encoded_byte(byte),
        48 <= byte <= 57 || 65 <= byte <= 90 || 97 <= byte <= 122 || byte == 45 || byte == 46
            || byte == 95 || byte == 126 ==> encoded_byte(byte) == seq![byte as char],
        !(48 <= byte <= 57 || 65 <= byte <= 90 || 97 <= byte <= 122 || byte == 45 || byte == 46
            || byte == 95 || byte == 126) ==> {
            &&& encoded_byte(byte).len() == 3
            &&& encoded_byte(byte)[0] == '%'
            &&& 16 * hex_value(encoded_byte(byte)[1]) + hex_value(encoded_byte(byte)[2]) == byte
        },
{
    assert(bytes.push(byte).drop_last() =~= bytes);
    let high = byte as int / 16;
    let low = byte as int % 16;
    assert(hex_value(big_hex(high)) == high);
    assert(hex_value(big_hex(low)) == low);
    assert(16 * high + low == byte as int);
}

/// The owner or the name of a plugin begins with a letter or a digit, goes on with
/// these, dots, lines and hyphens, without two dots in a row, and has at most a
/// hundred bytes; and everything of that form is one.
pub proof fn owners_and_names_are_plain(value: Seq<char>)
    ensures
        segment(value) <==> {
            &&& 0 < value.len()
            &&& encode_utf8(value).len() <= 100
            &&& text::is_alnum(value[0])
            &&& forall|i: int|
                0 <= i < value.len() ==> text::is_alnum(#[trigger] value[i]) || value[i] == '.'
                    || value[i] == '_' || value[i] == '-'
            &&& forall|i: int|
                0 <= i < value.len() - 1 ==> !(#[trigger] value[i] == '.' && value[i + 1] == '.')
        },
{
    reveal_strlit("..");
    let dots = ".."@;
    let plain = {
        &&& 0 < value.len()
        &&& encode_utf8(value).len() <= 100
        &&& text::is_alnum(value[0])
        &&& forall|i: int|
            0 <= i < value.len() ==> text::is_alnum(#[trigger] value[i]) || value[i] == '.'
                || value[i] == '_' || value[i] == '-'
        &&& forall|i: int|
            0 <= i < value.len() - 1 ==> !(#[trigger] value[i] == '.' && value[i + 1] == '.')
    };
    if segment(value) {
        assert forall|i: int| 0 <= i < value.len() implies text::is_alnum(#[trigger] value[i])
            || value[i] == '.' || value[i] == '_' || value[i] == '-' by {
            if i > 0 {
                assert(segment_char(value[i]));
            }
        }
        assert forall|i: int| 0 <= i < value.len() - 1 implies !(#[trigger] value[i] == '.'
            && value[i + 1] == '.') by {
            if value[i] == '.' && value[i + 1] == '.' {
                assert(value.subrange(i, i + 2) =~= dots);
                assert(text::occurs_at(value, dots, i));
            }
        }
    }
    if plain {
        if text::holds(value, dots) {
            let at = choose|at: int| text::occurs_at(value, dots, at);
            assert(value.subrange(at, at + 2)[0] == value[at]);
            assert(value.subrange(at, at + 2)[1] == value[at + 1]);
            assert(value[at] == '.' && value[at + 1] == '.');
        }
        if value.contains('/') {
            let at = choose|at: int| 0 <= at < value.len() && value[at] == '/';
            assert(text::is_alnum(value[at]) || value[at] == '.' || value[at] == '_' || value[at]
                == '-');
        }
        assert forall|i: int| 1 <= i < value.len() implies segment_char(#[trigger] value[i]) by {
            assert(text::is_alnum(value[i]) || value[i] == '.' || value[i] == '_' || value[i]
                == '-');
        }
    }
}

/// Every plugin of a page whose owner and name can be asked for is shown, one for
/// one and in their order; the others are left out.
pub proof fn plugins_of_a_page_are_shown_in_their_order(
    items: Seq<HubListItem>,
    item: HubListItem,
)
    ensures
        shown_items(Seq::empty()) == Seq::<HubPluginView>::empty(),
        segment(item.owner@) && segment(item.name@) ==> shown_items(items.push(item))
            == shown_items(items).push(shown(item)),
        !(segment(item.owner@) && segment(item.name@)) ==> shown_items(items.push(item))
            == shown_items(items),
{
    assert(items.push(item).drop_last() =~= items);
}

/// No plugin of a page that can be asked for is missing.
pub proof fn every_plugin_of_a_page_is_shown(items: Seq<HubListItem>, i: int)
    requires
        0 <= i < items.len(),
        segment(items[i].owner@),
        segment(items[i].name@),
    ensures
        shown_items(items).contains(shown(items[i])),
    decreases items.len(),
{
    let shorter = items.drop_last();
    let before = shown_items(shorter);
    let all = shown_items(items);
    if i < shorter.len() {
        assert(shorter[i] == items[i]);
        every_plugin_of_a_page_is_shown(shorter, i);
        let k = choose|k: int| 0 <= k < before.len() && before[k] == shown(items[i]);
        assert(all[k] == before[k]);
    } else {
        assert(all[before.len() as int] == shown(items[i]));
    }
}

/// What is missing is shown as nothing, and what is there as it is.
pub proof fn what_is_missing_is_shown_as_nothing(text: String, value: u64, list: Vec<String>)
    ensures
        or_empty(Some(text)) == text@,
        or_empty(None).len() == 0,
        or_zero(Some(value)) == value,
        or_zero(None) == 0,
        or_none(Some(list)) == text::texts(list@),
        or_none(None).len() == 0,
{
}

/// What is shown of a plugin on a page, field by field.
pub proof fn a_plugin_is_shown_field_by_field(item: HubListItem)
    ensures
        ({
            let r = shown(item);
            &&& r.owner == item.owner@
            &&& r.name == item.name@
            &&& r.full_name == or_empty(item.full_name)
            &&& r.description == or_empty(item.description)
            &&& r.stars == or_zero(item.stars)
            &&& r.forks == or_zero(item.forks)
            &&& r.category == or_empty(item.category)
            &&& r.homepage == or_empty(item.homepage)
            &&& r.repository_url == or_empty(item.repository_url)
            &&& r.topics == or_none(item.topics)
            &&& r.pushed_at == or_empty(item.pushed_at)
        }),
{
}

/// What is shown of a plugin by itself, field by field.
pub proof fn a_detail_is_shown_field_by_field(detail: HubDetail)
    ensures
        ({
            let r = shown_detail(detail);
            &&& r.owner == detail.owner@
            &&& r.name == detail.name@
            &&& r.full_name == or_empty(detail.full_name)
            &&& r.description == or_empty(detail.description)
            &&& r.stars == or_zero(detail.stars)
            &&& r.forks == or_zero(detail.forks)
            &&& r.category == or_empty(detail.category)
            &&& r.license == or_empty(detail.license)
            &&& r.homepage == or_empty(detail.homepage)
            &&& r.repository_url == or_empty(detail.repository_url)
            &&& r.topics == or_none(detail.topics)
            &&& r.pushed_at == or_empty(detail.pushed_at)
            &&& detail.manifest matches Some(manifest) ==> r.package_name == or_empty(
                manifest.name,
            ) && r.version == or_empty(manifest.version)
            &&& detail.manifest is None ==> r.package_name.len() == 0 && r.version.len() == 0
        }),
{
}

/// What comes of asking for a page: what is shown of it, with the number of all
/// plugins that the market gave, or why there is none.
pub proof fn an_answer_is_shown_or_its_reason(reply: Result<HubListResponse, String>)
    ensures
        reply matches Ok(list) ==> page_result(reply) == Ok::<HubPageView, Seq<char>>(
            HubPageView { items: shown_items(list.items@), total: list.total },
        ),
        reply matches Err(message) ==> page_result(reply) == Err::<HubPageView, Seq<char>>(
            message@,
        ),
{
}

/// What comes of asking for one plugin: what is shown of it, or why there is none.
pub proof fn a_detail_is_shown_or_its_reason(reply: Result<HubDetail, String>)
    ensures
        reply matches Ok(detail) ==> detail_result(reply) == Ok::<HubDetailView, Seq<char>>(
            shown_detail(detail),
        ),
        reply matches Err(message) ==> detail_result(reply) == Err::<HubDetailView, Seq<char>>(
            message@,
        ),
{
}

/// A plugin is installed by the package name in its manifest, where that may be
/// installed; without one it is not.
pub proof fn a_plugin_is_installed_by_its_package(reply: Result<HubDetail, String>)
    ensures
        match reply {
            Err(message) => package_result(reply) == Err::<Seq<char>, Seq<char>>(message@),
            Ok(detail) => {
                &&& detail.manifest is None ==> package_result(reply) == Err::<
                    Seq<char>,
                    Seq<char>,
                >("这个插件没有可安装的 npm 包名。"@)
                &&& detail.manifest matches Some(manifest) ==> (match manifest.name {
                    Some(name) => package_result(reply) == plugin_spec::parsed(name@),
                    None => package_result(reply) == Err::<Seq<char>, Seq<char>>(
                        "这个插件没有可安装的 npm 包名。"@,
                    ),
                })
            },
        },
{
}

/// A plugin that can be asked for is asked for by its owner and its name, as they
/// are.
pub proof fn a_plugin_is_asked_for_by_owner_and_name(owner: Seq<char>, name: Seq<char>)
    ensures
        detail_url(owner, name) == "https://dsh-hub.cc/api/v1/plugins/"@ + encoded(owner) + "/"@
            + encoded(name),
        segment(owner) && segment(name) ==> detail_url(owner, name)
            == "https://dsh-hub.cc/api/v1/plugins/"@ + owner + "/"@ + name,
{
    reveal_strlit("https://dsh-hub.cc/api/v1");
    reveal_strlit("/plugins/");
    reveal_strlit("https://dsh-hub.cc/api/v1/plugins/");
    assert(HUB_API@ + "/plugins/"@ =~= "https://dsh-hub.cc/api/v1/plugins/"@);
    if segment(owner) && segment(name) {
        owners_and_names_are_plain(owner);
        owners_and_names_are_plain(name);
        assert forall|i: int| 0 <= i < owner.len() implies kept(#[trigger] owner[i]) by {
            assert(text::is_alnum(owner[i]) || owner[i] == '.' || owner[i] == '_' || owner[i]
                == '-');
        }
        assert forall|i: int| 0 <= i < name.len() implies kept(#[trigger] name[i]) by {
            assert(text::is_alnum(name[i]) || name[i] == '.' || name[i] == '_' || name[i] == '-');
        }
        plain_text_is_kept(owner);
        plain_text_is_kept(name);
    }
}

/// The address that is asked for ends with the category that was chosen, for every
/// search.
pub proof fn a_search_keeps_its_category(
    query: &str,
    category: &str,
    sort: &str,
    offset: u32,
    r: Result<String, String>,
)
    requires
        call_ensures(search_url, (query, category, sort, offset), r),
        text::trimmed(category@).len() > 0,
        text::trimmed(category@) != "全部"@,
    ensures
        r matches Ok(url) ==> ({
            let tail = "&category="@ + encoded(text::trimmed(category@));
            &&& url@.len() >= tail.len()
            &&& url@.skip(url@.len() - tail.len()) == tail
        }),
{
    if r is Ok {
        a_category_is_always_asked_for(query@, category@, sort@, offset);
    }
}

/// What is searched for comes from the very address of the search; a search that
/// cannot be asked for is answered with its reason.
pub proof fn a_search_asks_its_own_address<F: FnOnce(&str) -> Result<HubListResponse, String>>(
    query: String,
    category: String,
    sort: String,
    offset: u32,
    fetch: F,
    r: Result<HubPage, String>,
)
    requires
        call_ensures(search_hub::<F>, (query, category, sort, offset, fetch), r),
    ensures
        page_url(query@, category@, sort@, offset) matches Err(message) ==> (r matches Err(said)
            && said@ == message),
        page_url(query@, category@, sort@, offset) matches Ok(url) ==> exists|
            address: &str,
            reply: Result<HubListResponse, String>,
        |
            {
                &&& #[trigger] call_ensures(fetch, (address,), reply)
                &&& address@ == url
                &&& reply is Ok <==> r is Ok
                &&& reply matches Err(message) ==> r->Err_0@ == message@
                &&& reply matches Ok(list) ==> r->Ok_0.total == list.total
                    && r->Ok_0@.items == shown_items(list.items@)
            },
{
}

/// A plugin is asked for at its own address, and one whose owner or name cannot be
/// asked for is not asked for at all.
pub proof fn a_plugin_is_asked_for_at_its_address<F: FnOnce(&str) -> Result<HubDetail, String>>(
    owner: String,
    name: String,
    fetch: F,
    r: Result<HubPluginDetail, String>,
)
    requires
        call_ensures(get_hub::<F>, (owner, name, fetch), r),
    ensures
        !segment(owner@) || !segment(name@) ==> (r matches Err(said) && said@ == "插件标识无效。"@),
        segment(owner@) && segment(name@) ==> exists|
            address: &str,
            reply: Result<HubDetail, String>,
        |
            {
                &&& #[trigger] call_ensures(fetch, (address,), reply)
                &&& address@ == "https://dsh-hub.cc/api/v1/plugins/"@ + owner@ + "/"@ + name@
                &&& reply is Ok <==> r is Ok
                &&& reply matches Err(message) ==> r->Err_0@ == message@
                &&& reply matches Ok(detail) ==> r->Ok_0@ == shown_detail(detail)
            },
{
    a_plugin_is_asked_for_by_owner_and_name(owner@, name@);
}

/// A plugin of the market is installed by the package that the market names at the
/// address of the plugin, where that may be installed.
pub proof fn an_installation_asks_for_the_package<F: FnOnce(&str) -> Result<HubDetail, String>>(
    owner: String,
    name: String,
    fetch: F,
    r: Result<String, String>,
)
    requires
        call_ensures(submit_hub_install::<F>, (owner, name, fetch), r),
    ensures
        !segment(owner@) || !segment(name@) ==> (r matches Err(said) && said@ == "插件标识无效。"@),
        segment(owner@) && segment(name@) ==> exists|
            address: &str,
            reply: Result<HubDetail, String>,
        |
            {
                &&& #[trigger] call_ensures(fetch, (address,), reply)
                &&& address@ == "https://dsh-hub.cc/api/v1/plugins/"@ + owner@ + "/"@ + name@
                &&& reply matches Err(message) ==> (r matches Err(said) && said@ == message@)
                &&& reply matches Ok(detail) ==> (r matches Ok(spec) ==> detail.manifest
                    matches Some(manifest) && manifest.name matches Some(package) && spec@
                    == text::trimmed(package@))
            },
{
    a_plugin_is_asked_for_by_owner_and_name(owner@, name@);
}

} // verus!
