//! The entries of plugins: how they are read from the patch of a plugin, and
//! the patch that disables them.

use vstd::prelude::*;
use vstd::string::*;

use crate::text;

verus! {

// ---------------------------------------------------------------------------
// Lists in which every text occurs once
// ---------------------------------------------------------------------------
/// A list with one more text, where it is not there yet.
pub open spec fn with_text(list: Seq<Seq<char>>, item: Seq<char>) -> Seq<Seq<char>> {
    if list.contains(item) {
        list
    } else {
        list.push(item)
    }
}

/// Adds a text to a list, where it is not there yet.
pub fn add_text(list: &mut Vec<String>, item: &str)
    ensures
        text::texts(final(list)@) == with_text(text::texts(old(list)@), item@),
{
    if !text::listed(list, item) {
        let ghost before = text::texts(list@);
        list.push(item.to_owned());
        assert(text::texts(list@) =~= before.push(item@));
    }
}

// ---------------------------------------------------------------------------
// Reading
// ---------------------------------------------------------------------------
/// A text without its quotes, or without the comment and the commas behind it.
pub open spec fn unquoted(value: Seq<char>) -> Seq<char> {
    let content = text::trimmed(value);
    if content.len() >= 2 && (content.first() == '"' && content.last() == '"' || content.first()
        == '\'' && content.last() == '\'') {
        content.subrange(1, content.len() - 1)
    } else {
        text::without_trailing(text::trimmed(text::before(content, "#"@)), ',')
    }
}

/// A text without its quotes, or without the comment and the commas behind it.
pub fn unquote_yaml(value: &str) -> (r: String)
    ensures
        r@ == unquoted(value@),
{
    let content = text::trim(value);
    let items = text::chars_of(content);
    let size = items.len();
    if size >= 2 && (items[0] == '"' && items[size - 1] == '"' || items[0] == '\'' && items[size
        - 1] == '\'') {
        return text::text_of(&items, 1, size - 1);
    }
    let head = text::head_text(content, "#");
    text::trim_end_char(text::trim(head.as_str()), ',')
}

/// What stands behind the `id` of a row that has one.
pub open spec fn id_field(row: Seq<char>) -> Option<Seq<char>> {
    let content = text::trimmed(row);
    if "#"@.is_prefix_of(content) {
        None
    } else if "- id:"@.is_prefix_of(content) {
        Some(content.skip("- id:"@.len() as int))
    } else if "id:"@.is_prefix_of(content) {
        Some(content.skip("id:"@.len() as int))
    } else {
        None
    }
}

/// The entry that a row names.
pub open spec fn row_id(row: Seq<char>) -> Option<Seq<char>> {
    match id_field(row) {
        Some(field) => if unquoted(text::trimmed(field)).len() > 0 {
            Some(unquoted(text::trimmed(field)))
        } else {
            None
        },
        None => None,
    }
}

/// The entries that rows name, in their order.
pub open spec fn row_ids(rows: Seq<Seq<char>>) -> Seq<Seq<char>>
    decreases rows.len(),
{
    if rows.len() == 0 {
        Seq::empty()
    } else {
        match row_id(rows.last()) {
            Some(id) => row_ids(rows.drop_last()).push(id),
            None => row_ids(rows.drop_last()),
        }
    }
}

/// A list with the texts of another one that are not there yet.
pub open spec fn merged(list: Seq<Seq<char>>, more: Seq<Seq<char>>) -> Seq<Seq<char>>
    decreases more.len(),
{
    if more.len() == 0 {
        list
    } else {
        with_text(merged(list, more.drop_last()), more.last())
    }
}

/// The entries that a patch names, each of them once.
pub open spec fn entry_ids(yaml: Seq<char>) -> Seq<Seq<char>> {
    merged(Seq::empty(), row_ids(text::split(yaml, "\n"@)))
}

fn read_row(row: &str) -> (r: Option<String>)
    ensures
        text::text_opt(r) == row_id(row@),
{
    let content = text::trim(row);
    if text::starts_with(content, "#") {
        return None;
    }
    let items = text::chars_of(content);
    proof {
        reveal_strlit("- id:");
        reveal_strlit("id:");
    }
    let from: usize = if text::starts_with(content, "- id:") {
        5
    } else if text::starts_with(content, "id:") {
        3
    } else {
        return None;
    };
    let field = text::text_of(&items, from, items.len());
    assert(field@ =~= content@.skip(from as int));
    let id = unquote_yaml(text::trim(field.as_str()));
    if id.as_str().is_empty() {
        None
    } else {
        Some(id)
    }
}

/// The entries that a patch names, each of them once.
pub fn collect_entry_ids(yaml: &str) -> (r: Vec<String>)
    ensures
        text::texts(r@) == entry_ids(yaml@),
{
    proof {
        reveal_strlit("\n");
    }
    let rows = text::split_text(yaml, "\n");
    let ghost all = text::texts(rows@);
    let mut ids: Vec<String> = Vec::new();
    let mut i: usize = 0;
    assert(all.take(0) =~= Seq::<Seq<char>>::empty());
    assert(text::texts(ids@) =~= Seq::<Seq<char>>::empty());
    while i < rows.len()
        invariant
            i <= rows@.len(),
            all == text::texts(rows@),
            text::texts(ids@) == merged(Seq::empty(), row_ids(all.take(i as int))),
        decreases rows@.len() - i,
    {
        assert(all.take(i + 1).drop_last() =~= all.take(i as int));
        assert(all.take(i + 1).last() == rows@[i as int]@);
        match read_row(rows[i].as_str()) {
            Some(id) => {
                let ghost found = row_ids(all.take(i as int)).push(id@);
                assert(found.drop_last() =~= row_ids(all.take(i as int)));
                add_text(&mut ids, id.as_str());
            },
            None => {},
        }
        i += 1;
    }
    assert(all.take(rows@.len() as int) =~= all);
    ids
}

// ---------------------------------------------------------------------------
// Writing
// ---------------------------------------------------------------------------
/// What the lists of a list say.
pub open spec fn lists_view(lists: Seq<Vec<String>>) -> Seq<Seq<Seq<char>>> {
    lists.map_values(|list: Vec<String>| text::texts(list@))
}

/// The texts of all lists, each of them once.
pub open spec fn merged_all(lists: Seq<Seq<Seq<char>>>) -> Seq<Seq<char>>
    decreases lists.len(),
{
    if lists.len() == 0 {
        Seq::empty()
    } else {
        merged(merged_all(lists.drop_last()), lists.last())
    }
}

fn add_texts(list: &mut Vec<String>, more: &Vec<String>)
    ensures
        text::texts(final(list)@) == merged(text::texts(old(list)@), text::texts(more@)),
{
    let ghost before = text::texts(list@);
    let ghost all = text::texts(more@);
    let mut i: usize = 0;
    assert(all.take(0) =~= Seq::<Seq<char>>::empty());
    while i < more.len()
        invariant
            i <= more@.len(),
            all == text::texts(more@),
            text::texts(list@) == merged(before, all.take(i as int)),
        decreases more@.len() - i,
    {
        assert(all.take(i + 1).drop_last() =~= all.take(i as int));
        assert(all.take(i + 1).last() == more@[i as int]@);
        add_text(list, more[i].as_str());
        i += 1;
    }
    assert(all.take(more@.len() as int) =~= all);
}

/// The entries of all disabled plugins, each of them once.
pub fn disabled_entries(lists: &Vec<Vec<String>>) -> (r: Vec<String>)
    ensures
        text::texts(r@) == merged_all(lists_view(lists@)),
{
    let ghost all = lists_view(lists@);
    let mut out: Vec<String> = Vec::new();
    let mut i: usize = 0;
    assert(all.take(0) =~= Seq::<Seq<Seq<char>>>::empty());
    assert(text::texts(out@) =~= Seq::<Seq<char>>::empty());
    while i < lists.len()
        invariant
            i <= lists@.len(),
            all == lists_view(lists@),
            text::texts(out@) == merged_all(all.take(i as int)),
        decreases lists@.len() - i,
    {
        assert(all.take(i + 1).drop_last() =~= all.take(i as int));
        assert(all.take(i + 1).last() == text::texts(lists@[i as int]@));
        add_texts(&mut out, &lists[i]);
        i += 1;
    }
    assert(all.take(lists@.len() as int) =~= all);
    out
}

/// A character that needs no quotes around it.
pub open spec fn bare_char(item: char) -> bool {
    text::is_alnum(item) || item == '-' || item == '_' || item == '.'
}

/// A text that needs no quotes around it.
pub open spec fn bare(value: Seq<char>) -> bool {
    forall|i: int| 0 <= i < value.len() ==> bare_char(#[trigger] value[i])
}

/// A text with a backslash in front of every quote.
pub open spec fn slashed(value: Seq<char>) -> Seq<char>
    decreases value.len(),
{
    if value.len() == 0 {
        Seq::empty()
    } else if value.last() == '"' {
        slashed(value.drop_last()) + seq!['\\', '"']
    } else {
        slashed(value.drop_last()).push(value.last())
    }
}

/// How a text is written in a patch.
pub open spec fn plain(value: Seq<char>) -> Seq<char> {
    if bare(value) {
        value
    } else {
        "\""@ + slashed(value) + "\""@
    }
}

/// How a text is written in a patch.
pub fn yaml_plain(value: &str) -> (r: String)
    ensures
        r@ == plain(value@),
{
    let items = text::chars_of(value);
    let mut all_bare = true;
    let mut out = String::new();
    let mut i: usize = 0;
    assert(value@.take(0) =~= Seq::<char>::empty());
    while i < items.len()
        invariant
            i <= items@.len(),
            items@ == value@,
            all_bare == (forall|j: int| 0 <= j < i ==> bare_char(#[trigger] value@[j])),
            out@ == slashed(value@.take(i as int)),
        decreases items@.len() - i,
    {
        let item = items[i];
        assert(value@.take(i + 1).drop_last() =~= value@.take(i as int));
        if !(text::alnum(item) || item == '-' || item == '_' || item == '.') {
            assert(!bare_char(value@[i as int]));
            all_bare = false;
        }
        if item == '"' {
            let ghost before = out@;
            out.push('\\');
            out.push('"');
            assert(out@ =~= before + seq!['\\', '"']);
        } else {
            out.push(item);
        }
        i += 1;
    }
    assert(value@.take(items@.len() as int) =~= value@);
    if all_bare {
        value.to_owned()
    } else {
        text::join3("\"", out.as_str(), "\"")
    }
}

/// The rows that disable entries.
pub open spec fn disable_rows(ids: Seq<Seq<char>>) -> Seq<char>
    decreases ids.len(),
{
    if ids.len() == 0 {
        Seq::empty()
    } else {
        disable_rows(ids.drop_last()) + "- id: "@ + plain(ids.last()) + "\n  disabled: true\n"@
    }
}

/// The patch that disables entries.
pub open spec fn disable_patch(ids: Seq<Seq<char>>) -> Seq<char> {
    if ids.len() == 0 {
        "# Generated by DeepSeek Harness Desktop.\n[]\n"@
    } else {
        "# Generated by DeepSeek Harness Desktop.\n"@ + disable_rows(ids)
    }
}

/// The patch that disables entries.
pub fn render_disable_patch(ids: &Vec<String>) -> (r: String)
    ensures
        r@ == disable_patch(text::texts(ids@)),
{
    if ids.len() == 0 {
        return "# Generated by DeepSeek Harness Desktop.\n[]\n".to_string();
    }
    let ghost all = text::texts(ids@);
    let mut out = "# Generated by DeepSeek Harness Desktop.\n".to_string();
    let ghost head = out@;
    let mut i: usize = 0;
    assert(all.take(0) =~= Seq::<Seq<char>>::empty());
    assert(out@ =~= head + disable_rows(all.take(0)));
    while i < ids.len()
        invariant
            i <= ids@.len(),
            all == text::texts(ids@),
            out@ == head + disable_rows(all.take(i as int)),
        decreases ids@.len() - i,
    {
        assert(all.take(i + 1).drop_last() =~= all.take(i as int));
        assert(all.take(i + 1).last() == ids@[i as int]@);
        out.append("- id: ");
        out.append(yaml_plain(ids[i].as_str()).as_str());
        out.append("\n  disabled: true\n");
        assert(out@ =~= head + disable_rows(all.take(i + 1)));
        i += 1;
    }
    assert(all.take(ids@.len() as int) =~= all);
    out
}

// ---------------------------------------------------------------------------
// Laws
// ---------------------------------------------------------------------------
/// A longer list holds what it held before, and the new text.
pub proof fn pushed_text_is_there(list: Seq<Seq<char>>, item: Seq<char>, other: Seq<char>)
    ensures
        list.push(item).contains(other) <==> list.contains(other) || other == item,
{
    let longer = list.push(item);
    assert(longer[list.len() as int] == item);
    if list.contains(other) {
        let i = choose|i: int| 0 <= i < list.len() && list[i] == other;
        assert(longer[i] == other);
    }
    if longer.contains(other) && other != item {
        let i = choose|i: int| 0 <= i < longer.len() && longer[i] == other;
        assert(list[i] == other);
    }
}

/// A list that a text was added to holds what it held before, and the text.
pub proof fn added_text_is_there(list: Seq<Seq<char>>, item: Seq<char>, other: Seq<char>)
    ensures
        with_text(list, item).contains(other) <==> list.contains(other) || other == item,
{
    pushed_text_is_there(list, item, other);
}

/// The entries that are disabled occur once each.
pub proof fn entries_occur_once(yaml: Seq<char>, lists: Seq<Seq<Seq<char>>>)
    ensures
        entry_ids(yaml).no_duplicates(),
        merged_all(lists).no_duplicates(),
    decreases lists.len(),
{
    merging_keeps_texts_apart(Seq::empty(), row_ids(text::split(yaml, "\n"@)));
    if lists.len() > 0 {
        entries_occur_once(yaml, lists.drop_last());
        merging_keeps_texts_apart(merged_all(lists.drop_last()), lists.last());
    }
}

proof fn merging_keeps_texts_apart(list: Seq<Seq<char>>, more: Seq<Seq<char>>)
    requires
        list.no_duplicates(),
    ensures
        merged(list, more).no_duplicates(),
    decreases more.len(),
{
    if more.len() > 0 {
        merging_keeps_texts_apart(list, more.drop_last());
    }
}

/// Every entry of every disabled plugin is disabled, and no other one.
pub proof fn exactly_the_entries_are_disabled(lists: Seq<Seq<Seq<char>>>, id: Seq<char>)
    ensures
        merged_all(lists).contains(id) <==> exists|i: int|
            0 <= i < lists.len() && (#[trigger] lists[i]).contains(id),
    decreases lists.len(),
{
    if lists.len() > 0 {
        let shorter = lists.drop_last();
        exactly_the_entries_are_disabled(shorter, id);
        merging_takes_all(merged_all(shorter), lists.last(), id);
        if merged_all(shorter).contains(id) {
            let i = choose|i: int| 0 <= i < shorter.len() && (#[trigger] shorter[i]).contains(id);
            assert(lists[i].contains(id));
        }
        if lists.last().contains(id) {
            assert(lists[lists.len() - 1].contains(id));
        }
        if exists|i: int| 0 <= i < lists.len() && (#[trigger] lists[i]).contains(id) {
            let i = choose|i: int| 0 <= i < lists.len() && (#[trigger] lists[i]).contains(id);
            if i < shorter.len() {
                assert(shorter[i].contains(id));
            }
        }
    }
}

proof fn merging_takes_all(list: Seq<Seq<char>>, more: Seq<Seq<char>>, id: Seq<char>)
    ensures
        merged(list, more).contains(id) <==> list.contains(id) || more.contains(id),
    decreases more.len(),
{
    if more.len() > 0 {
        let shorter = more.drop_last();
        merging_takes_all(list, shorter, id);
        added_text_is_there(merged(list, shorter), more.last(), id);
        assert(shorter.push(more.last()) =~= more);
        pushed_text_is_there(shorter, more.last(), id);
    }
}

/// A text that a patch gives back as it is.
pub open spec fn faithful(id: Seq<char>) -> bool {
    id.len() > 0 && !id.contains('"') && !id.contains('\n')
}

/// Reading the patch that disables entries gives these entries back, in their
/// order, where they are distinct and none of them is empty or holds a quote
/// or a line end.
pub proof fn a_patch_names_its_entries(ids: Seq<Seq<char>>)
    requires
        ids.no_duplicates(),
        forall|i: int| 0 <= i < ids.len() ==> faithful(#[trigger] ids[i]),
    ensures
        entry_ids(disable_patch(ids)) == ids,
{
    reveal_strlit("\n");
    reveal_strlit("#");
    reveal_strlit("# Generated by DeepSeek Harness Desktop.");
    reveal_strlit("# Generated by DeepSeek Harness Desktop.\n");
    let head = "# Generated by DeepSeek Harness Desktop."@;
    let line_end = "\n"@;
    tight_text_is_trimmed(head);
    assert("#"@.is_prefix_of(head)) by {
        assert("#"@ =~= head.subrange(0, 1));
    }
    assert(row_id(head) is None);
    assert(!head.contains('\n'));
    let rest = if ids.len() == 0 {
        "[]\n"@
    } else {
        disable_rows(ids)
    };
    if ids.len() == 0 {
        reveal_strlit("[]\n");
        reveal_strlit("[]");
        reveal_strlit("- id:");
        reveal_strlit("id:");
        reveal_strlit("# Generated by DeepSeek Harness Desktop.\n[]\n");
        let empty_list = "[]"@;
        tight_text_is_trimmed(empty_list);
        not_a_prefix("#"@, empty_list, 0);
        not_a_prefix("- id:"@, empty_list, 0);
        not_a_prefix("id:"@, empty_list, 0);
        assert(rest =~= empty_list + line_end + Seq::<char>::empty());
        line_is_split_off(empty_list, Seq::empty());
        last_row_is_blank();
        rows_add_up(seq![empty_list], text::split(Seq::empty(), line_end));
        single_row(empty_list);
        assert(row_ids(text::split(rest, line_end)) =~= ids);
    } else {
        rows_name_their_entries(ids);
    }
    assert(disable_patch(ids) =~= head + line_end + rest);
    line_is_split_off(head, rest);
    rows_add_up(seq![head], text::split(rest, line_end));
    single_row(head);
    assert(row_ids(text::split(disable_patch(ids), line_end)) =~= ids);
    distinct_texts_are_all_added(ids);
}

/// A row by itself.
proof fn single_row(row: Seq<char>)
    ensures
        row_ids(seq![row]) == match row_id(row) {
            Some(id) => seq![id],
            None => Seq::empty(),
        },
{
    assert(seq![row].drop_last() =~= Seq::<Seq<char>>::empty());
    assert(row_ids(seq![row].drop_last()) =~= Seq::<Seq<char>>::empty());
}

/// The rows of two parts are the rows of the first and of the second.
proof fn rows_add_up(first: Seq<Seq<char>>, second: Seq<Seq<char>>)
    ensures
        row_ids(first + second) == row_ids(first) + row_ids(second),
    decreases second.len(),
{
    if second.len() == 0 {
        assert(first + second =~= first);
        assert(row_ids(second) =~= Seq::<Seq<char>>::empty());
    } else {
        rows_add_up(first, second.drop_last());
        assert((first + second).drop_last() =~= first + second.drop_last());
        assert((first + second).last() == second.last());
        assert(row_ids(first + second) =~= row_ids(first) + row_ids(second));
    }
}

/// A line before the rest is the first part of a split.
proof fn line_is_split_off(line: Seq<char>, rest: Seq<char>)
    requires
        !line.contains('\n'),
    ensures
        text::split(line + "\n"@ + rest, "\n"@) == seq![line] + text::split(rest, "\n"@),
{
    reveal_strlit("\n");
    let mark = "\n"@;
    let all = line + mark + rest;
    let end = line.len() as int;
    text::find_from_is_first(all, mark, 0);
    assert(all.subrange(end, end + 1) =~= mark);
    assert(text::occurs_at(all, mark, end));
    assert forall|j: int| 0 <= j < end implies !text::occurs_at(all, mark, j) by {
        if text::occurs_at(all, mark, j) {
            assert(all.subrange(j, j + 1)[0] == line[j]);
        }
    }
    assert(all.take(end) =~= line);
    assert(all.skip(end + 1) =~= rest);
}

/// Nothing is named behind the last line end.
proof fn last_row_is_blank()
    ensures
        row_ids(text::split(Seq::empty(), "\n"@)) == Seq::<Seq<char>>::empty(),
{
    reveal_strlit("\n");
    reveal_strlit("#");
    reveal_strlit("- id:");
    reveal_strlit("id:");
    let none = Seq::<char>::empty();
    text::find_from_is_first(none, "\n"@, 0);
    assert(text::split(none, "\n"@) =~= seq![none]);
    assert(text::trimmed(none) =~= none);
    assert(row_id(none) is None);
    single_row(none);
}

/// A text that differs from another at a place does not start with it.
proof fn not_a_prefix(lead: Seq<char>, content: Seq<char>, at: int)
    requires
        0 <= at < lead.len(),
        at >= content.len() || lead[at] != content[at],
    ensures
        !lead.is_prefix_of(content),
{
    if lead.is_prefix_of(content) {
        assert(lead[at] == content.subrange(0, lead.len() as int)[at]);
    }
}

/// A text that neither starts nor ends with white space stays as it is.
proof fn tight_text_is_trimmed(content: Seq<char>)
    requires
        content.len() > 0,
        !text::is_white(content[0]),
        !text::is_white(content[content.len() - 1]),
    ensures
        text::trimmed(content) == content,
{
}

/// The row that names an entry.
pub open spec fn id_row(id: Seq<char>) -> Seq<char> {
    "- id: "@ + plain(id)
}

proof fn rows_name_their_entries(ids: Seq<Seq<char>>)
    requires
        forall|i: int| 0 <= i < ids.len() ==> faithful(#[trigger] ids[i]),
    ensures
        row_ids(text::split(disable_rows(ids), "\n"@)) == ids,
    decreases ids.len(),
{
    if ids.len() == 0 {
        assert(disable_rows(ids) =~= Seq::<char>::empty());
        last_row_is_blank();
    } else {
        let first = ids[0];
        let others = ids.drop_first();
        assert forall|i: int| 0 <= i < others.len() implies faithful(#[trigger] others[i]) by {
            assert(faithful(ids[i + 1]));
        }
        rows_name_their_entries(others);
        assert(faithful(ids[0]));
        first_rows_come_first(ids);
        reveal_strlit("\n");
        reveal_strlit("  disabled: true");
        reveal_strlit("\n  disabled: true\n");
        let line_end = "\n"@;
        let second = "  disabled: true"@;
        let rest = disable_rows(others);
        assert(disable_rows(ids) =~= id_row(first) + line_end + (second + line_end + rest));
        id_row_names_its_entry(first);
        disabled_row_names_nothing();
        line_is_split_off(id_row(first), second + line_end + rest);
        line_is_split_off(second, rest);
        let tail = text::split(rest, line_end);
        rows_add_up(seq![second], tail);
        rows_add_up(seq![id_row(first)], seq![second] + tail);
        single_row(second);
        single_row(id_row(first));
        assert(row_ids(text::split(disable_rows(ids), line_end)) =~= seq![first] + others);
        assert(seq![first] + others =~= ids);
    }
}

proof fn first_rows_come_first(ids: Seq<Seq<char>>)
    requires
        ids.len() > 0,
    ensures
        disable_rows(ids) == id_row(ids[0]) + "\n  disabled: true\n"@ + disable_rows(
            ids.drop_first(),
        ),
    decreases ids.len(),
{
    let tail = "\n  disabled: true\n"@;
    if ids.len() == 1 {
        assert(ids.drop_last() =~= Seq::<Seq<char>>::empty());
        assert(ids.drop_first() =~= Seq::<Seq<char>>::empty());
        assert(disable_rows(ids.drop_last()) =~= Seq::<char>::empty());
        assert(disable_rows(ids.drop_first()) =~= Seq::<char>::empty());
        assert(disable_rows(ids) =~= id_row(ids[0]) + tail + disable_rows(ids.drop_first()));
    } else {
        first_rows_come_first(ids.drop_last());
        assert(ids.drop_first().drop_last() =~= ids.drop_last().drop_first());
        assert(ids.drop_first().last() == ids.last());
        assert(disable_rows(ids) =~= id_row(ids[0]) + tail + disable_rows(ids.drop_first()));
    }
}

proof fn disabled_row_names_nothing()
    ensures
        row_id("  disabled: true"@) is None,
        !"  disabled: true"@.contains('\n'),
{
    reveal_strlit("  disabled: true");
    reveal_strlit("#");
    reveal_strlit("- id:");
    reveal_strlit("id:");
    let row = "  disabled: true"@;
    let content = row.skip(2);
    reveal_with_fuel(text::trimmed_start, 3);
    assert(row.drop_first().drop_first() =~= content);
    assert(text::trimmed_start(row) == content);
    assert(content[0] == 'd');
    assert(text::trimmed(row) == content);
    not_a_prefix("#"@, content, 0);
    not_a_prefix("- id:"@, content, 0);
    not_a_prefix("id:"@, content, 0);
}

proof fn unslashed(value: Seq<char>)
    requires
        !value.contains('"'),
    ensures
        slashed(value) == value,
    decreases value.len(),
{
    if value.len() > 0 {
        let shorter = value.drop_last();
        assert(!shorter.contains('"')) by {
            if shorter.contains('"') {
                let i = choose|i: int| 0 <= i < shorter.len() && shorter[i] == '"';
                assert(value[i] == '"');
            }
        }
        unslashed(shorter);
        assert(value.last() != '"') by {
            assert(value[value.len() - 1] == value.last());
        }
        assert(slashed(value) =~= value);
    } else {
        assert(slashed(value) =~= value);
    }
}

proof fn id_row_names_its_entry(id: Seq<char>)
    requires
        faithful(id),
    ensures
        row_id(id_row(id)) == Some(id),
        !id_row(id).contains('\n'),
{
    reveal_strlit("- id: ");
    reveal_strlit("- id:");
    reveal_strlit("#");
    reveal_strlit("\"");
    unslashed(id);
    let shown = plain(id);
    let row = id_row(id);
    let size = shown.len() as int;
    if bare(id) {
        assert(bare_char(id[0]));
        assert(bare_char(id[id.len() - 1]));
        assert forall|i: int| 0 <= i < row.len() implies row[i] != '\n' by {
            if i >= 6 {
                assert(bare_char(id[i - 6]));
            }
        }
    } else {
        assert(shown =~= seq!['"'] + id + seq!['"']);
        assert forall|i: int| 0 <= i < row.len() implies row[i] != '\n' by {
            if 7 <= i < row.len() - 1 {
                assert(row[i] == id[i - 7]);
            }
        }
    }
    assert(!text::is_white(shown[0]));
    assert(!text::is_white(shown[size - 1]));
    assert(row[0] == '-');
    assert(row[row.len() - 1] == shown[size - 1]);
    tight_text_is_trimmed(row);
    not_a_prefix("#"@, row, 0);
    assert("- id:"@ =~= row.subrange(0, 5));
    let field = row.skip(5);
    assert(field.drop_first() =~= shown);
    assert(field[0] == ' ');
    reveal_with_fuel(text::trimmed_start, 2);
    assert(text::trimmed_start(field) == shown);
    tight_text_is_trimmed(shown);
    assert(text::trimmed(field) == shown);
    if bare(id) {
        text::find_from_is_first(id, "#"@, 0);
        if let Some(at) = text::find(id, "#"@) {
            assert(id.subrange(at, at + 1)[0] == id[at]);
            assert(bare_char(id[at]));
        }
        assert(text::before(id, "#"@) == id);
        assert(id.last() != ',');
        assert(unquoted(shown) == id);
    } else {
        assert(shown.subrange(1, size - 1) =~= id);
        assert(unquoted(shown) == id);
    }
}

/// Texts that are distinct are all added.
proof fn distinct_texts_are_all_added(ids: Seq<Seq<char>>)
    requires
        ids.no_duplicates(),
    ensures
        merged(Seq::empty(), ids) == ids,
    decreases ids.len(),
{
    if ids.len() > 0 {
        let shorter = ids.drop_last();
        distinct_texts_are_all_added(shorter);
        assert(!shorter.contains(ids.last())) by {
            if shorter.contains(ids.last()) {
                let i = choose|i: int| 0 <= i < shorter.len() && shorter[i] == ids.last();
                assert(ids[i] == ids[ids.len() - 1]);
            }
        }
        assert(shorter.push(ids.last()) =~= ids);
    } else {
        assert(merged(Seq::empty(), ids) =~= ids);
    }
}

/// A text is added at the end, and only where it is not there yet.
pub proof fn a_text_is_added_once(list: Seq<Seq<char>>, item: Seq<char>)
    ensures
        list.contains(item) ==> with_text(list, item) == list,
        !list.contains(item) ==> with_text(list, item) == list.push(item),
{
}

/// Lists are merged text by text: the first list comes first and stays as it is,
/// and each text of the other follows at its first occurrence.
pub proof fn merging_goes_text_by_text(
    list: Seq<Seq<char>>,
    more: Seq<Seq<char>>,
    item: Seq<char>,
)
    ensures
        merged(list, Seq::empty()) == list,
        merged(list, more).contains(item) ==> merged(list, more.push(item)) == merged(list, more),
        !merged(list, more).contains(item) ==> merged(list, more.push(item)) == merged(
            list,
            more,
        ).push(item),
        merged(list, more).contains(item) <==> list.contains(item) || more.contains(item),
{
    assert(more.push(item).drop_last() =~= more);
    merging_takes_all(list, more, item);
}

/// All lists are merged, the first one first.
pub proof fn lists_are_merged_one_by_one(lists: Seq<Seq<Seq<char>>>, list: Seq<Seq<char>>)
    ensures
        merged_all(Seq::empty()) == Seq::<Seq<char>>::empty(),
        merged_all(lists.push(list)) == merged(merged_all(lists), list),
{
    assert(lists.push(list).drop_last() =~= lists);
}

/// What stands between quotes is taken as it is, whatever it holds.
pub proof fn quotes_are_taken_off(content: Seq<char>)
    ensures
        unquoted(seq!['"'] + content + seq!['"']) == content,
        unquoted(seq!['\''] + content + seq!['\'']) == content,
{
    let double = seq!['"'] + content + seq!['"'];
    let single = seq!['\''] + content + seq!['\''];
    tight_text_is_trimmed(double);
    tight_text_is_trimmed(single);
    assert(double.subrange(1, double.len() - 1) =~= content);
    assert(single.subrange(1, single.len() - 1) =~= content);
}

/// What stands without quotes ends before a comment, and loses the white space
/// around it and the commas behind it.
pub proof fn comments_and_commas_are_taken_off(
    value: Seq<char>,
    content: Seq<char>,
    note: Seq<char>,
)
    requires
        content.len() > 0,
        content[0] != '"',
        content[0] != '\'',
        !text::is_white(content[0]),
        !content.contains('#'),
    ensures
        text::trimmed(value) == content ==> unquoted(value) == text::without_trailing(content, ','),
        text::trimmed(value) == content + seq!['#'] + note ==> unquoted(value)
            == text::without_trailing(text::trimmed(content), ','),
{
    reveal_strlit("#");
    let mark = "#"@;
    let whole = text::trimmed(value);
    text::find_from_is_first(whole, mark, 0);
    if whole == content {
        if let Some(at) = text::find(whole, mark) {
            assert(whole.subrange(at, at + 1)[0] == content[at]);
            assert(content[at] == '#');
        }
        text::trimmed_is_tight(value);
        tight_text_is_trimmed(content);
    }
    if whole == content + seq!['#'] + note {
        let end = content.len() as int;
        assert(whole.subrange(end, end + 1) =~= mark);
        assert(text::occurs_at(whole, mark, end));
        assert forall|j: int| 0 <= j < end implies !text::occurs_at(whole, mark, j) by {
            if text::occurs_at(whole, mark, j) {
                assert(whole.subrange(j, j + 1)[0] == content[j]);
                assert(content[j] == '#');
            }
        }
        assert(whole.take(end) =~= content);
        assert(whole[0] == content[0]);
    }
}

/// A row names an entry where it begins with `id:`, with or without the dash of a
/// list, and something stands behind; a comment names none, and neither does any
/// other row.
pub proof fn a_row_names_its_entry(row: Seq<char>, field: Seq<char>)
    ensures
        ({
            let id = unquoted(text::trimmed(field));
            let content = text::trimmed(row);
            &&& content == seq!['-', ' ', 'i', 'd', ':'] + field || content == seq!['i', 'd', ':']
                + field ==> row_id(row) == (if id.len() > 0 {
                Some(id)
            } else {
                None
            })
            &&& content.len() > 0 && content[0] == '#' ==> row_id(row) is None
            &&& row_id(row) is Some ==> content.len() > 3 && (content.take(3) == seq![
                'i',
                'd',
                ':',
            ] || content.len() > 5 && content.take(5) == seq!['-', ' ', 'i', 'd', ':'])
        }),
{
    reveal_strlit("#");
    reveal_strlit("- id:");
    reveal_strlit("id:");
    let content = text::trimmed(row);
    let dashed = seq!['-', ' ', 'i', 'd', ':'];
    let short = seq!['i', 'd', ':'];
    assert("- id:"@ =~= dashed);
    assert("id:"@ =~= short);
    if content == dashed + field {
        not_a_prefix("#"@, content, 0);
        assert(dashed =~= content.subrange(0, 5));
        assert(content.skip(5) =~= field);
    }
    if content == short + field {
        not_a_prefix("#"@, content, 0);
        not_a_prefix(dashed, content, 0);
        assert(short =~= content.subrange(0, 3));
        assert(content.skip(3) =~= field);
    }
    if content.len() > 0 && content[0] == '#' {
        assert("#"@ =~= content.subrange(0, 1));
    }
    if row_id(row) is Some {
        if dashed.is_prefix_of(content) {
            assert(content.take(5) =~= dashed);
            if content.len() == 5 {
                assert(content.skip(5) =~= Seq::<char>::empty());
                nothing_is_no_entry();
            }
        } else {
            assert(content.take(3) =~= short);
            if content.len() == 3 {
                assert(content.skip(3) =~= Seq::<char>::empty());
                nothing_is_no_entry();
            }
        }
    }
}

proof fn nothing_is_no_entry()
    ensures
        unquoted(text::trimmed(Seq::empty())).len() == 0,
{
    reveal_strlit("#");
    let none = Seq::<char>::empty();
    assert(text::trimmed(none) =~= none);
    text::find_from_is_first(none, "#"@, 0);
    assert(text::before(none, "#"@) =~= none);
}

/// The entries of a patch are those that its rows name, row by row; each of them
/// is listed, and no other.
pub proof fn entries_are_read_row_by_row(rows: Seq<Seq<char>>, row: Seq<char>)
    ensures
        row_ids(Seq::empty()) == Seq::<Seq<char>>::empty(),
        match row_id(row) {
            Some(id) => row_ids(rows.push(row)) == row_ids(rows).push(id),
            None => row_ids(rows.push(row)) == row_ids(rows),
        },
{
    assert(rows.push(row).drop_last() =~= rows);
}

/// An entry is listed exactly where a row of the patch names it.
pub proof fn every_named_entry_is_listed(yaml: Seq<char>, id: Seq<char>)
    ensures
        entry_ids(yaml).contains(id) <==> exists|k: int|
            0 <= k < text::split(yaml, "\n"@).len() && row_id(
                #[trigger] text::split(yaml, "\n"@)[k],
            ) == Some(id),
{
    let rows = text::split(yaml, "\n"@);
    merging_takes_all(Seq::empty(), row_ids(rows), id);
    rows_list_what_they_name(rows, id);
}

proof fn rows_list_what_they_name(rows: Seq<Seq<char>>, id: Seq<char>)
    ensures
        row_ids(rows).contains(id) <==> exists|k: int|
            0 <= k < rows.len() && row_id(#[trigger] rows[k]) == Some(id),
    decreases rows.len(),
{
    if rows.len() > 0 {
        let shorter = rows.drop_last();
        rows_list_what_they_name(shorter, id);
        match row_id(rows.last()) {
            Some(last) => {
                pushed_text_is_there(row_ids(shorter), last, id);
            },
            None => {},
        }
        if row_id(rows.last()) == Some(id) {
            assert(row_id(rows[rows.len() - 1]) == Some(id));
        }
        if exists|k: int| 0 <= k < shorter.len() && row_id(#[trigger] shorter[k]) == Some(id) {
            let k = choose|k: int|
                0 <= k < shorter.len() && row_id(#[trigger] shorter[k]) == Some(id);
            assert(row_id(rows[k]) == Some(id));
        }
        if exists|k: int| 0 <= k < rows.len() && row_id(#[trigger] rows[k]) == Some(id) {
            let k = choose|k: int| 0 <= k < rows.len() && row_id(#[trigger] rows[k]) == Some(id);
            if k < shorter.len() {
                assert(row_id(shorter[k]) == Some(id));
            }
        }
    } else {
        assert(!row_ids(rows).contains(id));
    }
}

/// A text of letters, digits, `-`, `_` and `.` is written as it is; any other one
/// stands between quotes, with a backslash in front of each quote in it.
pub proof fn texts_are_quoted_where_needed(value: Seq<char>, item: char)
    ensures
        (forall|i: int|
            0 <= i < value.len() ==> text::is_alnum(#[trigger] value[i]) || value[i] == '-'
                || value[i] == '_' || value[i] == '.') ==> plain(value) == value,
        (exists|i: int|
            0 <= i < value.len() && !(text::is_alnum(#[trigger] value[i]) || value[i] == '-'
                || value[i] == '_' || value[i] == '.')) ==> plain(value) == seq!['"'] + slashed(
            value,
        ) + seq!['"'],
        slashed(Seq::empty()) == Seq::<char>::empty(),
        slashed(value.push('"')) == slashed(value) + seq!['\\', '"'],
        item != '"' ==> slashed(value.push(item)) == slashed(value).push(item),
{
    reveal_strlit("\"");
    assert("\""@ =~= seq!['"']);
    assert(value.push(item).drop_last() =~= value);
    assert(value.push('"').drop_last() =~= value);
    if exists|i: int|
        0 <= i < value.len() && !(text::is_alnum(#[trigger] value[i]) || value[i] == '-' || value[i]
            == '_' || value[i] == '.') {
        let i = choose|i: int|
            0 <= i < value.len() && !(text::is_alnum(#[trigger] value[i]) || value[i] == '-'
                || value[i] == '_' || value[i] == '.');
        assert(!bare_char(value[i]));
    }
}

/// A patch has one row for each entry that is to be disabled, in their order,
/// behind a line that says where it comes from; without entries it is an empty
/// list.
pub proof fn a_patch_disables_row_by_row(ids: Seq<Seq<char>>, id: Seq<char>)
    ensures
        disable_patch(Seq::empty()) == "# Generated by DeepSeek Harness Desktop.\n[]\n"@,
        disable_patch(ids.push(id)) == "# Generated by DeepSeek Harness Desktop.\n"@ + disable_rows(
            ids,
        ) + "- id: "@ + plain(id) + "\n  disabled: true\n"@,
        disable_rows(Seq::empty()) == Seq::<char>::empty(),
        ids.len() > 0 ==> disable_patch(ids) == "# Generated by DeepSeek Harness Desktop.\n"@
            + disable_rows(ids),
{
    assert(ids.push(id).drop_last() =~= ids);
    assert(disable_patch(ids.push(id)) =~= "# Generated by DeepSeek Harness Desktop.\n"@
        + disable_rows(ids) + "- id: "@ + plain(id) + "\n  disabled: true\n"@);
}

/// The lists of a list say what each of them says, in their order.
pub proof fn lists_say_what_their_lists_say(lists: Seq<Vec<String>>, i: int)
    requires
        0 <= i < lists.len(),
    ensures
        lists_view(lists).len() == lists.len(),
        lists_view(lists)[i] == text::texts(lists[i]@),
{
}

/// A quote at one end alone is none: only the comment, the white space and the
/// commas are taken off.
pub proof fn half_a_pair_of_quotes_is_none(value: Seq<char>)
    requires
        ({
            let whole = text::trimmed(value);
            &&& !(whole.len() >= 2 && whole[0] == '"' && whole[whole.len() - 1] == '"')
            &&& !(whole.len() >= 2 && whole[0] == '\'' && whole[whole.len() - 1] == '\'')
        }),
    ensures
        unquoted(value) == text::without_trailing(
            text::trimmed(text::before(text::trimmed(value), "#"@)),
            ',',
        ),
{
}

} // verus!
