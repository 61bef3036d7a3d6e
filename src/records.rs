//! Record-field references: hover text for a field of a record, and the
//! record named before the cursor when a field completion is asked for.

use vstd::prelude::*;
use crate::database::{DatabaseField, RecordType};
use crate::registry::{lookup, lemma_position_in, DocumentView, Registry};
use crate::syntax::{
    named_node_at, named_parent_at, parent_prev_sibling_at, parse_succeeds, summary_view, NodeSummary, Position,
    Range, SummaryView,
};
use crate::text::{chars_of, is_white, lower_of, lowercase, remove_char, string_of, trim, trim_end, trim_text, without};

verus! {

/// The record type that a word names, in any case, with colons and
/// surrounding white space ignored.
pub open spec fn record_of(word: Seq<char>) -> Option<RecordType> {
    if trim(without(lower_of(word), ':')) == "account"@ {
        Some(RecordType::Account)
    } else {
        None
    }
}

/// The key under which a field is looked up: its name in lower case,
/// without surrounding white space.
pub open spec fn field_key(name: Seq<char>) -> Seq<char> {
    trim(lower_of(name))
}

/// Reads a record type from a word such as `ACCOUNT:`.
pub fn record_type_of(word: &str) -> (r: Option<RecordType>)
    ensures
        r == record_of(word@),
{
    let lower = lowercase(word);
    let bare = remove_char(lower.as_str(), ':');
    let name = trim_text(bare.as_str()).to_owned();
    let account = RecordType::Account.as_str().to_owned();
    if name == account {
        Some(RecordType::Account)
    } else {
        None
    }
}

/// The record text, field text and field span of a hovered field reference:
/// the node must be a field name whose parent is a record type, or whose
/// parent is itself a field name that follows a record type.
pub open spec fn hover_target(
    node: Option<SummaryView>,
    parent: Option<SummaryView>,
    parent_prev: Option<SummaryView>,
) -> Option<(Seq<char>, Seq<char>, Range)> {
    match node {
        Some(n) => if n.kind == "field_name"@ {
            match parent {
                Some(p) => {
                    let owner = if p.kind == "field_name"@ {
                        parent_prev
                    } else {
                        Some(p)
                    };
                    match owner {
                        Some(o) => if o.kind == "record_type"@ {
                            Some((o.text, n.text, n.range))
                        } else {
                            None
                        },
                        None => None,
                    }
                },
                None => None,
            }
        } else {
            None
        },
        None => None,
    }
}

/// The field reference hovered at `pos` in the document under `uri`.
pub open spec fn hover_at(reg: Seq<DocumentView>, uri: Seq<char>, pos: Position) -> Option<(Seq<char>, Seq<char>, Range)> {
    match lookup(reg, uri) {
        Some(d) => if parse_succeeds(d.text) {
            let (l, c) = (pos.line as nat, pos.character as nat);
            hover_target(named_node_at(d.text, l, c), named_parent_at(d.text, l, c), parent_prev_sibling_at(d.text, l, c))
        } else {
            None
        },
        None => None,
    }
}

/// Reads a field reference from the hovered node, its parent and the named
/// sibling before that parent.
pub fn hover_field(node: &Option<NodeSummary>, parent: &Option<NodeSummary>, parent_prev: &Option<NodeSummary>) -> (r: Option<(String, String, Range)>)
    ensures
        match hover_target(summary_view(*node), summary_view(*parent), summary_view(*parent_prev)) {
            Some(t) => r matches Some(x) && x.0@ == t.0 && x.1@ == t.1 && x.2 == t.2,
            None => r is None,
        },
{
    let field_name = "field_name".to_owned();
    let record_type = "record_type".to_owned();
    let n = match node {
        Some(n) => n,
        None => return None,
    };
    if n.kind != field_name {
        return None;
    }
    let p = match parent {
        Some(p) => p,
        None => return None,
    };
    let owner = if p.kind == field_name {
        match parent_prev {
            Some(o) => o,
            None => return None,
        }
    } else {
        p
    };
    if owner.kind == record_type {
        Some((owner.text.clone(), n.text.clone(), n.range))
    } else {
        None
    }
}

/// The kind of the smallest named node at `pos` in the document under `uri`.
pub fn node_at_point(reg: &Registry, uri: &str, pos: Position) -> (r: Option<String>)
    ensures
        match lookup(reg@, uri@) {
            Some(d) => if parse_succeeds(d.text) {
                match named_node_at(d.text, pos.line as nat, pos.character as nat) {
                    Some(n) => r matches Some(k) && k@ == n.kind,
                    None => r is None,
                }
            } else {
                r is None
            },
            None => r is None,
        },
{
    proof {
        lemma_position_in(reg@, uri@, reg@.len() as int);
    }
    let i = match reg.find(uri) {
        Some(i) => i,
        None => return None,
    };
    match reg.tree_at(i) {
        Some(t) => match t.named_node_at(pos) {
            Some(n) => Some(n.kind),
            None => None,
        },
        None => None,
    }
}

/// A reference to a field of a record, as hovered.
#[derive(Debug)]
pub struct FieldReference {
    pub record: RecordType,
    /// The field's name in lower case, the key of the field tables.
    pub field: String,
    /// The span of the field name.
    pub range: Range,
}

/// Finds the field reference hovered at `pos` in the document under `uri`:
/// a field name of a record whose type is known, with the key under which
/// the field tables hold it.
pub fn field_reference_at(reg: &Registry, uri: &str, pos: Position) -> (r: Option<FieldReference>)
    ensures
        match hover_at(reg@, uri@, pos) {
            Some(t) => match record_of(t.0) {
                Some(rt) => r matches Some(f) && f.record == rt && f.field@ == field_key(t.1) && f.range == t.2,
                None => r is None,
            },
            None => r is None,
        },
{
    proof {
        lemma_position_in(reg@, uri@, reg@.len() as int);
    }
    let i = match reg.find(uri) {
        Some(i) => i,
        None => return None,
    };
    let tree = match reg.tree_at(i) {
        Some(t) => t,
        None => return None,
    };
    let node = tree.named_node_at(pos);
    let parent = tree.named_parent_at(pos);
    let parent_prev = tree.parent_prev_sibling_at(pos);
    let (record_text, field_text, range) = match hover_field(&node, &parent, &parent_prev) {
        Some(t) => t,
        None => return None,
    };
    let record = match record_type_of(record_text.as_str()) {
        Some(rt) => rt,
        None => return None,
    };
    let lower = lowercase(field_text.as_str());
    let field = trim_text(lower.as_str()).to_owned();
    Some(FieldReference { record, field, range })
}

/// The index of the first field of `fields[..n]` whose mnemonic is `key`.
pub open spec fn field_position(fields: Seq<DatabaseField>, key: Seq<char>, n: int) -> Option<int>
    decreases n,
{
    if n <= 0 {
        None
    } else {
        match field_position(fields, key, n - 1) {
            Some(i) => Some(i),
            None => if fields[n - 1].mnemonic@ == key {
                Some(n - 1)
            } else {
                None
            },
        }
    }
}

/// The field of the table with the given mnemonic.
pub open spec fn field_named(fields: Seq<DatabaseField>, key: Seq<char>) -> Option<DatabaseField> {
    match field_position(fields, key, fields.len() as int) {
        Some(i) => Some(fields[i]),
        None => None,
    }
}

/// Finds the field with the given mnemonic in a field table.
pub fn find_field<'a>(fields: &'a Vec<DatabaseField>, key: &str) -> (r: Option<&'a DatabaseField>)
    ensures
        match field_named(fields@, key@) {
            Some(f) => r == Some(&f),
            None => r is None,
        },
{
    let wanted = key.to_owned();
    let mut i: usize = 0;
    while i < fields.len()
        invariant
            0 <= i <= fields@.len(),
            wanted@ == key@,
            field_position(fields@, key@, i as int) is None,
        decreases fields@.len() - i,
    {
        if fields[i].mnemonic.to_owned() == wanted {
            proof {
                lemma_field_position_stays(fields@, key@, i as int + 1, fields@.len() as int);
            }
            return Some(&fields[i]);
        }
        i = i + 1;
    }
    None
}

proof fn lemma_field_position_stays(fields: Seq<DatabaseField>, key: Seq<char>, m: int, n: int)
    requires
        1 <= m <= n,
        field_position(fields, key, m) is Some,
    ensures
        field_position(fields, key, n) == field_position(fields, key, m),
    decreases n - m,
{
    if n > m {
        lemma_field_position_stays(fields, key, m, n - 1);
    }
}

/// Hover text: the details of a field, and the span of its name.
#[derive(Debug)]
pub struct Hover {
    pub contents: String,
    pub range: Range,
}

/// The details of the account field hovered at `pos` in the document under
/// `uri`, as the account field table gives them.
pub open spec fn hover_result(reg: Seq<DocumentView>, uri: Seq<char>, pos: Position, account_fields: Seq<DatabaseField>) -> Option<(Seq<char>, Range)> {
    match hover_at(reg, uri, pos) {
        Some(t) => match record_of(t.0) {
            Some(RecordType::Account) => match field_named(account_fields, field_key(t.1)) {
                Some(f) => Some((f.details@, t.2)),
                None => None,
            },
            None => None,
        },
        None => None,
    }
}

/// Describes the field hovered at `pos` in the document under `uri`: there
/// is a result exactly when the point is on a field name of an account
/// record and the account table holds that field; it gives the field's
/// details and the span of the name.
pub fn handle_hover(reg: &Registry, uri: &str, pos: Position, account_fields: &Vec<DatabaseField>) -> (r: Option<Hover>)
    ensures
        match hover_result(reg@, uri@, pos, account_fields@) {
            Some(h) => r matches Some(x) && x.contents@ == h.0 && x.range == h.1,
            None => r is None,
        },
{
    let found = match field_reference_at(reg, uri, pos) {
        Some(f) => f,
        None => return None,
    };
    match found.record {
        RecordType::Account => {},
    }
    match find_field(account_fields, found.field.as_str()) {
        Some(f) => Some(Hover { contents: f.details.to_owned(), range: found.range }),
        None => None,
    }
}

/// The lines of a text, cut at each line feed.
pub open spec fn lines_of(text: Seq<char>) -> Seq<Seq<char>>
    decreases text.len(),
{
    if text.len() == 0 {
        seq![Seq::empty()]
    } else {
        let prev = lines_of(text.drop_last());
        if text.last() == '\n' {
            prev.push(Seq::empty())
        } else {
            prev.update(prev.len() - 1, prev.last().push(text.last()))
        }
    }
}

/// The run of non-white characters at the end of a text.
pub open spec fn last_word(s: Seq<char>) -> Seq<char>
    decreases s.len(),
{
    if s.len() == 0 || is_white(s.last()) {
        Seq::empty()
    } else {
        last_word(s.drop_last()).push(s.last())
    }
}

/// Line `line` of a text as str::lines gives it: a line ended by a line
/// feed loses a carriage return just before it.
pub open spec fn line_of(text: Seq<char>, line: nat) -> Option<Seq<char>> {
    let lines = lines_of(text);
    if line < lines.len() {
        let l = lines[line as int];
        if line + 1 < lines.len() && l.len() > 0 && l.last() == '\r' {
            Some(l.drop_last())
        } else {
            Some(l)
        }
    } else {
        None
    }
}

/// How many bytes a character takes in UTF-8.
pub open spec fn utf8_width(c: char) -> nat {
    let u = c as u32;
    if u < 0x80 {
        1
    } else if u < 0x800 {
        2
    } else if u < 0x10000 {
        3
    } else {
        4
    }
}

/// How many bytes a text takes in UTF-8.
pub open spec fn byte_len(s: Seq<char>) -> nat
    decreases s.len(),
{
    if s.len() == 0 {
        0
    } else {
        byte_len(s.drop_last()) + utf8_width(s.last())
    }
}

/// The number of characters held by the first `col` bytes of a text; none
/// where `col` is past the end or inside a character.
pub open spec fn char_col(s: Seq<char>, col: nat) -> Option<nat> {
    if exists|k: nat| k <= s.len() && #[trigger] byte_len(s.take(k as int)) == col {
        Some(choose|k: nat| k <= s.len() && #[trigger] byte_len(s.take(k as int)) == col)
    } else {
        None
    }
}

/// The last white-space-separated word of line `line` of a text up to byte
/// column `col`; none where the line or the column is past the end, the
/// column is inside a character, or no word stands before the column.
pub open spec fn word_before(text: Seq<char>, line: nat, col: nat) -> Option<Seq<char>> {
    match line_of(text, line) {
        Some(l) => match char_col(l, col) {
            Some(k) => {
                let w = last_word(trim_end(l.take(k as int)));
                if w.len() > 0 {
                    Some(w)
                } else {
                    None
                }
            },
            None => None,
        },
        None => None,
    }
}

proof fn lemma_byte_len_grows(s: Seq<char>, a: int, b: int)
    requires
        0 <= a < b <= s.len(),
    ensures
        byte_len(s.take(a)) < byte_len(s.take(b)),
    decreases b - a,
{
    assert(s.take(b).drop_last() =~= s.take(b - 1));
    if a < b - 1 {
        lemma_byte_len_grows(s, a, b - 1);
    }
}

fn utf8_width_of(c: char) -> (r: usize)
    ensures
        r == utf8_width(c),
{
    let u = c as u32;
    if u < 0x80 {
        1
    } else if u < 0x800 {
        2
    } else if u < 0x10000 {
        3
    } else {
        4
    }
}

/// The character index that byte column `col` of a line stands at.
fn char_column(s: &Vec<char>, col: usize) -> (r: Option<usize>)
    ensures
        match char_col(s@, col as nat) {
            Some(k) => r == Some(k as usize),
            None => r is None,
        },
{
    let mut i: usize = 0;
    let mut bytes: usize = 0;
    proof {
        assert(s@.take(0) =~= Seq::<char>::empty());
    }
    while i < s.len() && bytes < col
        invariant
            i <= s@.len(),
            bytes == byte_len(s@.take(i as int)),
            bytes <= col,
        decreases s@.len() - i,
    {
        let w = utf8_width_of(s[i]);
        proof {
            assert(s@.take(i as int + 1).drop_last() =~= s@.take(i as int));
        }
        if w > col - bytes {
            proof {
                assert forall|k: nat| k <= s@.len() implies #[trigger] byte_len(s@.take(k as int)) != col by {
                    if k < i {
                        lemma_byte_len_grows(s@, k as int, i as int);
                    } else if k > i + 1 {
                        lemma_byte_len_grows(s@, i as int + 1, k as int);
                    }
                }
            }
            return None;
        }
        bytes = bytes + w;
        i = i + 1;
    }
    if bytes == col {
        proof {
            assert(byte_len(s@.take(i as int)) == col);
            let k = choose|k: nat| k <= s@.len() && #[trigger] byte_len(s@.take(k as int)) == col;
            if k < i {
                lemma_byte_len_grows(s@, k as int, i as int);
            } else if k > i {
                lemma_byte_len_grows(s@, i as int, k as int);
            }
        }
        Some(i)
    } else {
        proof {
            assert(i == s@.len());
            assert forall|k: nat| k <= s@.len() implies #[trigger] byte_len(s@.take(k as int)) != col by {
                if k < i {
                    lemma_byte_len_grows(s@, k as int, i as int);
                }
            }
        }
        None
    }
}

/// The word before `pos` in the document under `uri`.
pub open spec fn word_at(reg: Seq<DocumentView>, uri: Seq<char>, pos: Position) -> Option<Seq<char>> {
    match lookup(reg, uri) {
        Some(d) => word_before(d.text, pos.line as nat, pos.character as nat),
        None => None,
    }
}

fn nth_line(text: &Vec<char>, line: usize) -> (r: Option<(Vec<char>, bool)>)
    ensures
        match r {
            Some(l) => line < lines_of(text@).len() && l.0@ == lines_of(text@)[line as int]
                && l.1 == (line + 1 < lines_of(text@).len()),
            None => line >= lines_of(text@).len(),
        },
{
    let mut count: usize = 0;
    let mut found: Vec<char> = Vec::new();
    let mut i: usize = 0;
    proof {
        assert(text@.take(0) =~= Seq::<char>::empty());
    }
    while i < text.len()
        invariant
            0 <= i <= text@.len(),
            count + 1 == lines_of(text@.take(i as int)).len(),
            count <= i,
            line < lines_of(text@.take(i as int)).len() ==> found@ == lines_of(text@.take(i as int))[line as int],
            line >= lines_of(text@.take(i as int)).len() ==> found@.len() == 0,
        decreases text@.len() - i,
    {
        let c = text[i];
        let ghost prev = lines_of(text@.take(i as int));
        proof {
            assert(text@.take(i as int + 1).drop_last() =~= text@.take(i as int));
            assert(text@.take(i as int + 1).last() == c);
        }
        if c == '\n' {
            count = count + 1;
        } else if count == line {
            found.push(c);
        }
        i = i + 1;
    }
    proof {
        assert(text@.take(text@.len() as int) =~= text@);
    }
    if line <= count {
        Some((found, line < count))
    } else {
        None
    }
}

fn last_word_of(s: &Vec<char>, end: usize) -> (r: Vec<char>)
    requires
        end <= s@.len(),
    ensures
        r@ == last_word(s@.take(end as int)),
{
    let mut start: usize = end;
    while start > 0 && !is_white_char(s[start - 1])
        invariant
            start <= end <= s@.len(),
            last_word(s@.take(end as int)) == last_word(s@.take(start as int)) + s@.subrange(start as int, end as int),
            forall|k: int| start <= k < end ==> !is_white(s@[k]),
        decreases start,
    {
        proof {
            let t = s@.take(start as int);
            assert(t.drop_last() =~= s@.take(start as int - 1));
            assert(s@.subrange(start as int - 1, end as int) =~= seq![s@[start as int - 1]] + s@.subrange(start as int, end as int));
            assert(last_word(t) == last_word(s@.take(start as int - 1)).push(s@[start as int - 1]));
            assert(last_word(s@.take(start as int - 1)).push(s@[start as int - 1]) + s@.subrange(start as int, end as int)
                =~= last_word(s@.take(start as int - 1)) + s@.subrange(start as int - 1, end as int));
        }
        start = start - 1;
    }
    proof {
        assert(last_word(s@.take(start as int)) =~= Seq::<char>::empty());
        assert(last_word(s@.take(end as int)) =~= s@.subrange(start as int, end as int));
    }
    let mut out: Vec<char> = Vec::new();
    let mut k: usize = start;
    while k < end
        invariant
            start <= k <= end <= s@.len(),
            out@ == s@.subrange(start as int, k as int),
        decreases end - k,
    {
        out.push(s[k]);
        assert(out@ =~= s@.subrange(start as int, k as int + 1));
        k = k + 1;
    }
    out
}

/// The end of `s[..end]` once trailing white space is taken off.
fn skip_white_back(s: &Vec<char>, end: usize) -> (r: usize)
    requires
        end <= s@.len(),
    ensures
        r <= end,
        s@.take(r as int) == trim_end(s@.take(end as int)),
{
    let mut e: usize = end;
    while e > 0 && is_white_char(s[e - 1])
        invariant
            e <= end <= s@.len(),
            trim_end(s@.take(e as int)) == trim_end(s@.take(end as int)),
        decreases e,
    {
        proof {
            assert(s@.take(e as int).drop_last() =~= s@.take(e as int - 1));
        }
        e = e - 1;
    }
    e
}

fn is_white_char(c: char) -> (r: bool)
    ensures
        r == is_white(c),
{
    let u = c as u32;
    (9 <= u && u <= 13) || u == 32 || u == 0x85 || u == 0xa0 || u == 0x1680 || (0x2000 <= u && u <= 0x200a)
        || u == 0x2028 || u == 0x2029 || u == 0x202f || u == 0x205f || u == 0x3000
}

/// The word that ends at `pos` in the document under `uri`: the run of
/// non-white characters just before that column of that line.
pub fn word_at_point(reg: &Registry, uri: &str, pos: Position) -> (r: Option<String>)
    ensures
        match word_at(reg@, uri@, pos) {
            Some(w) => r matches Some(s) && s@ == w,
            None => r is None,
        },
{
    proof {
        lemma_position_in(reg@, uri@, reg@.len() as int);
    }
    let i = match reg.find(uri) {
        Some(i) => i,
        None => return None,
    };
    let text = chars_of(reg.document_at(i).text.as_str());
    let (mut line, ended) = match nth_line(&text, pos.line) {
        Some(l) => l,
        None => return None,
    };
    if ended && line.len() > 0 && line[line.len() - 1] == '\r' {
        let _cr = line.pop();
        proof {
            assert(line@ =~= lines_of(text@)[pos.line as int].drop_last());
        }
    }
    let col = match char_column(&line, pos.character) {
        Some(k) => k,
        None => return None,
    };
    let end = skip_white_back(&line, col);
    let word = last_word_of(&line, end);
    if word.len() == 0 {
        return None;
    }
    Some(string_of(word.as_slice()))
}

/// What a completion request offers.
#[derive(Clone, Copy, Debug, PartialEq, Eq, Structural)]
pub enum CompletionList {
    /// The keyword and function table.
    Keywords,
    /// The fields of a record.
    Fields(RecordType),
}

/// Decides what a completion request offers: without a trigger character,
/// the keyword table; after `:`, the fields of the record named just
/// before it; after any other trigger, nothing.
pub fn handle_comlpetion(reg: &Registry, uri: &str, pos: Position, trigger: Option<&str>) -> (r: Option<CompletionList>)
    ensures
        match trigger {
            None => r == Some(CompletionList::Keywords),
            Some(t) => if t@ == ":"@ {
                r == match word_at(reg@, uri@, pos) {
                    Some(w) => match record_of(w) {
                        Some(rt) => Some(CompletionList::Fields(rt)),
                        None => None,
                    },
                    None => None,
                }
            } else {
                r is None
            },
        },
{
    let t = match trigger {
        Some(t) => t,
        None => return Some(CompletionList::Keywords),
    };
    if t.to_owned() != ":".to_owned() {
        return None;
    }
    let word = match word_at_point(reg, uri, pos) {
        Some(w) => w,
        None => return None,
    };
    match record_type_of(word.as_str()) {
        Some(rt) => Some(CompletionList::Fields(rt)),
        None => None,
    }
}

} // verus!
