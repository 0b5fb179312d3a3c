//! Reading the table comment and the column comments out of the text of a
//! `CREATE TABLE` statement. Comments are `--` lines: one before the first
//! column is the table's, one after a column's definition is that column's.
use vstd::prelude::*;
use crate::map::TextMap;
use crate::text::{
    first_word, first_word_spec, is_white_space, lemma_first_word_of_line, lemma_trim_ends,
    starts_with, trim, trim_spec,
};
use crate::pattern::{regex_captures_of, regex_compiles, regex_split_of};

verus! {

/// Finds the table name and the column list of a `CREATE TABLE` statement.
pub const CREATE_TABLE_PATTERN: &'static str = r".*CREATE\s+TABLE\s+(\S+)\s*\((?s)(.*)\).*";

/// Splits a column list at commas and line ends.
pub const LINE_COMMA_PATTERN: &'static str = r"[,\n]";

/// The description of the error for a statement that is not a `CREATE TABLE`.
pub const PARSE_ERROR: &'static str = "Unable to parse sql statement";

/// The description of the error for a statement whose comments cannot all be
/// placed: a column without a comment slot after it.
pub const UNMATCHED_COMMENTS_ERROR: &'static str = "Unable to match the comments to the columns";

/// The column list that the statement pattern captures from `sql`, when it
/// matches.
pub open spec fn column_list_of(sql: Seq<char>) -> Option<Seq<char>> {
    match regex_captures_of(CREATE_TABLE_PATTERN@, sql) {
        Some(groups) => if groups.len() > 2 {
            groups[2]
        } else {
            None
        },
        None => None,
    }
}

/// The column names and comment slots of a column list.
pub open spec fn scan_of_column_list(body: Seq<char>) -> (Seq<Seq<char>>, Seq<Option<Seq<char>>>) {
    scan_spec(column_lines_spec(regex_split_of(LINE_COMMA_PATTERN@, body)))
}

/// The table comment and the column comments of the statement `sql`, or
/// `None` when they cannot be read from it.
pub open spec fn comments_of_statement(sql: Seq<char>) -> Option<
    (Option<Seq<char>>, Map<Seq<char>, Option<Seq<char>>>),
> {
    if regex_compiles(CREATE_TABLE_PATTERN@) && regex_compiles(LINE_COMMA_PATTERN@)
        && column_list_of(sql) is Some {
        let (columns, comments) = scan_of_column_list(column_list_of(sql)->0);
        if comments_cover_columns(columns, comments) {
            Some((table_comment_spec(comments), column_map_spec(columns, comments)))
        } else {
            None
        }
    } else {
        None
    }
}

/// The trimmed, non-blank pieces of `splinters`, in order.
pub open spec fn column_lines_spec(splinters: Seq<Seq<char>>) -> Seq<Seq<char>>
    decreases splinters.len(),
{
    if splinters.len() == 0 {
        Seq::empty()
    } else {
        let rest = column_lines_spec(splinters.drop_last());
        let t = trim_spec(splinters.last());
        if t.len() > 0 {
            rest.push(t)
        } else {
            rest
        }
    }
}

/// A line that holds a comment.
pub open spec fn is_comment_line(line: Seq<char>) -> bool {
    "--"@.is_prefix_of(line)
}

/// A line that holds a table constraint rather than a column.
pub open spec fn is_constraint_line(line: Seq<char>) -> bool {
    "FOREIGN"@.is_prefix_of(line) || "CHECK"@.is_prefix_of(line)
}

/// `comments` extended with `None` up to length `n`.
pub open spec fn pad_comments(comments: Seq<Option<Seq<char>>>, n: nat) -> Seq<Option<Seq<char>>> {
    if comments.len() < n {
        comments + Seq::new((n - comments.len()) as nat, |k: int| None::<Seq<char>>)
    } else {
        comments
    }
}

/// The column names and the comment slots that the lines give: a column line
/// adds its first word as a column; a comment line is placed at the slot of
/// the number of columns seen so far, or after the last slot if that is
/// further; constraint lines are skipped.
pub open spec fn scan_spec(lines: Seq<Seq<char>>) -> (Seq<Seq<char>>, Seq<Option<Seq<char>>>)
    decreases lines.len(),
{
    if lines.len() == 0 {
        (Seq::empty(), Seq::empty())
    } else {
        let (columns, comments) = scan_spec(lines.drop_last());
        let line = lines.last();
        if is_comment_line(line) {
            (columns, pad_comments(comments, columns.len()).push(Some(line)))
        } else if is_constraint_line(line) {
            (columns, comments)
        } else {
            (columns.push(first_word_spec(line)), comments)
        }
    }
}

/// The table comment: the first comment slot, when there are comments.
pub open spec fn table_comment_spec(comments: Seq<Option<Seq<char>>>) -> Option<Seq<char>> {
    if comments.len() > 0 {
        comments[0]
    } else {
        None
    }
}

/// The comment of the column at index `i`: the slot after it, when there are
/// comments.
pub open spec fn column_comment_spec(comments: Seq<Option<Seq<char>>>, i: int) -> Option<Seq<char>> {
    if comments.len() > 0 {
        comments[i + 1]
    } else {
        None
    }
}

/// Each column mapped to its comment; a later column of the same name wins.
pub open spec fn column_map_spec(columns: Seq<Seq<char>>, comments: Seq<Option<Seq<char>>>) -> Map<
    Seq<char>,
    Option<Seq<char>>,
>
    decreases columns.len(),
{
    if columns.len() == 0 {
        Map::empty()
    } else {
        column_map_spec(columns.drop_last(), comments).insert(
            columns.last(),
            column_comment_spec(comments, columns.len() - 1),
        )
    }
}

/// Every column has a slot after it, or there are no comments at all.
pub open spec fn comments_cover_columns(
    columns: Seq<Seq<char>>,
    comments: Seq<Option<Seq<char>>>,
) -> bool {
    comments.len() == 0 || columns.len() < comments.len()
}

/// The keys of the column comment map are exactly the column names.
pub proof fn law_comment_keys_are_columns(
    columns: Seq<Seq<char>>,
    comments: Seq<Option<Seq<char>>>,
)
    ensures
        column_map_spec(columns, comments).dom() == columns.to_set(),
    decreases columns.len(),
{
    if columns.len() > 0 {
        law_comment_keys_are_columns(columns.drop_last(), comments);
        assert(columns.drop_last().to_set().insert(columns.last()) =~= columns.to_set()) by {
            assert forall|c: Seq<char>| columns.to_set().contains(c) implies columns.drop_last().to_set().insert(
                columns.last(),
            ).contains(c) by {
                let k = choose|k: int| 0 <= k < columns.len() && columns[k] == c;
                if k < columns.len() - 1 {
                    assert(columns.drop_last()[k] == c);
                }
            }
            assert forall|c: Seq<char>| columns.drop_last().to_set().insert(columns.last()).contains(
                c,
            ) implies columns.to_set().contains(c) by {
                if c != columns.last() {
                    let k = choose|k: int| 0 <= k < columns.len() - 1 && columns.drop_last()[k] == c;
                    assert(columns[k] == c);
                } else {
                    assert(columns[columns.len() - 1] == c);
                }
            }
        }
    } else {
        assert(columns.to_set() =~= Set::empty());
    }
}

/// Every line is non-empty and starts with non-whitespace.
pub open spec fn lines_start_with_text(lines: Seq<Seq<char>>) -> bool {
    forall|j: int| 0 <= j < lines.len() ==> #[trigger] lines[j].len() > 0 && !is_white_space(lines[j][0])
}

/// The trimmed, non-blank pieces all start with non-whitespace.
pub proof fn lemma_column_lines_start_with_text(splinters: Seq<Seq<char>>)
    ensures
        lines_start_with_text(column_lines_spec(splinters)),
    decreases splinters.len(),
{
    if splinters.len() > 0 {
        lemma_column_lines_start_with_text(splinters.drop_last());
        lemma_trim_ends(splinters.last());
    }
}

/// Column names read from lines that start with text are non-empty words.
pub proof fn lemma_scan_columns_are_words(lines: Seq<Seq<char>>)
    requires
        lines_start_with_text(lines),
    ensures
        forall|i: int|
            0 <= i < scan_spec(lines).0.len() ==> (#[trigger] scan_spec(lines).0[i]).len() > 0
                && forall|k: int|
                0 <= k < scan_spec(lines).0[i].len() ==> !is_white_space(
                    #[trigger] scan_spec(lines).0[i][k],
                ),
    decreases lines.len(),
{
    if lines.len() > 0 {
        let init = lines.drop_last();
        assert(lines_start_with_text(init)) by {
            assert forall|j: int| 0 <= j < init.len() implies #[trigger] init[j].len() > 0
                && !is_white_space(init[j][0]) by {
                assert(init[j] == lines[j]);
            }
        }
        lemma_scan_columns_are_words(init);
        let line = lines.last();
        assert(lines[lines.len() - 1] == line);
        lemma_first_word_of_line(line);
        let cols = scan_spec(lines).0;
        let prev = scan_spec(init).0;
        assert forall|i: int| 0 <= i < cols.len() implies (#[trigger] cols[i]).len() > 0 && forall|
            k: int,
        | 0 <= k < cols[i].len() ==> !is_white_space(#[trigger] cols[i][k]) by {
            if i < prev.len() {
                assert(cols[i] == prev[i]);
            } else {
                assert(cols[i] == first_word_spec(line));
            }
        }
    }
}

/// Every column name that a statement yields is a non-empty word without
/// whitespace.
pub proof fn law_column_names_are_words(body: Seq<char>)
    ensures
        forall|i: int|
            0 <= i < scan_of_column_list(body).0.len() ==> (#[trigger] scan_of_column_list(
                body,
            ).0[i]).len() > 0 && forall|k: int|
                0 <= k < scan_of_column_list(body).0[i].len() ==> !is_white_space(
                    #[trigger] scan_of_column_list(body).0[i][k],
                ),
{
    let lines = column_lines_spec(regex_split_of(LINE_COMMA_PATTERN@, body));
    lemma_column_lines_start_with_text(regex_split_of(LINE_COMMA_PATTERN@, body));
    lemma_scan_columns_are_words(lines);
}

/// Scanning more lines only adds columns and comment slots at the end.
pub proof fn lemma_scan_prefix(lines: Seq<Seq<char>>, k: int)
    requires
        0 <= k <= lines.len(),
    ensures
        scan_spec(lines.take(k)).0.is_prefix_of(scan_spec(lines).0),
        scan_spec(lines.take(k)).1.is_prefix_of(scan_spec(lines).1),
    decreases lines.len(),
{
    if k == lines.len() {
        assert(lines.take(k) =~= lines);
    } else {
        let init = lines.drop_last();
        assert(init.take(k) =~= lines.take(k));
        lemma_scan_prefix(init, k);
        let (cols, coms) = scan_spec(init);
        let (c0, m0) = scan_spec(lines.take(k));
        let (cols2, coms2) = scan_spec(lines);
        assert(cols.is_prefix_of(cols2));
        assert(coms.is_prefix_of(coms2)) by {
            assert forall|x: int| 0 <= x < coms.len() implies coms[x] == coms2[x] by {
                if is_comment_line(lines.last()) {
                    assert(pad_comments(coms, cols.len())[x] == coms[x]);
                }
            }
        }
        assert(c0 =~= cols2.subrange(0, c0.len() as int)) by {
            assert forall|x: int| 0 <= x < c0.len() implies c0[x] == cols2[x] by {
                assert(c0[x] == cols[x]);
            }
        }
        assert(m0 =~= coms2.subrange(0, m0.len() as int)) by {
            assert forall|x: int| 0 <= x < m0.len() implies m0[x] == coms2[x] by {
                assert(m0[x] == coms[x]);
            }
        }
    }
}

/// The first line, when it is a comment, is the table comment.
pub proof fn law_leading_comment_is_table_comment(lines: Seq<Seq<char>>)
    requires
        lines.len() > 0,
        is_comment_line(lines[0]),
    ensures
        table_comment_spec(scan_spec(lines).1) == Some(lines[0]),
{
    lemma_scan_prefix(lines, 1);
    let first = lines.take(1);
    assert(first.drop_last() =~= Seq::<Seq<char>>::empty());
    assert(first.last() == lines[0]);
    let none: (Seq<Seq<char>>, Seq<Option<Seq<char>>>) = (Seq::empty(), Seq::empty());
    assert(scan_spec(first.drop_last()) == none);
    assert(pad_comments(none.1, 0) =~= none.1);
    assert(scan_spec(first).1 =~= seq![Some(lines[0])]);
    let all = scan_spec(lines).1;
    assert(all.len() >= 1);
    assert(all.subrange(0, 1)[0] == all[0]);
}

/// Lines without comments give no comment slots, so every column can be
/// given its (absent) comment and the statement is accepted.
pub proof fn law_no_comment_lines_no_slots(lines: Seq<Seq<char>>)
    requires
        forall|j: int| 0 <= j < lines.len() ==> !is_comment_line(#[trigger] lines[j]),
    ensures
        scan_spec(lines).1.len() == 0,
        comments_cover_columns(scan_spec(lines).0, scan_spec(lines).1),
    decreases lines.len(),
{
    if lines.len() > 0 {
        let init = lines.drop_last();
        assert forall|j: int| 0 <= j < init.len() implies !is_comment_line(#[trigger] init[j]) by {
            assert(init[j] == lines[j]);
        }
        law_no_comment_lines_no_slots(init);
        assert(lines[lines.len() - 1] == lines.last());
    }
}

/// A line that defines a column: neither a comment nor a constraint.
pub open spec fn is_column_line(line: Seq<char>) -> bool {
    !is_comment_line(line) && !is_constraint_line(line)
}

/// Once a column line has been read first, slot 0 can only be filled with
/// padding: it never holds a comment.
proof fn lemma_first_column_leaves_slot_empty(lines: Seq<Seq<char>>)
    requires
        lines.len() >= 1,
        is_column_line(lines[0]),
    ensures
        scan_spec(lines).0.len() >= 1,
        scan_spec(lines).1.len() == 0 || scan_spec(lines).1[0] is None,
    decreases lines.len(),
{
    let init = lines.drop_last();
    if lines.len() == 1 {
        let none: (Seq<Seq<char>>, Seq<Option<Seq<char>>>) = (Seq::empty(), Seq::empty());
        assert(init =~= Seq::<Seq<char>>::empty());
        assert(scan_spec(init) == none);
        assert(lines.last() == lines[0]);
    } else {
        assert(init[0] == lines[0]);
        lemma_first_column_leaves_slot_empty(init);
        let (cols, coms) = scan_spec(init);
        if is_comment_line(lines.last()) {
            let padded = pad_comments(coms, cols.len());
            if coms.len() == 0 {
                assert(padded[0] == None::<Seq<char>>);
            } else {
                assert(padded[0] == coms[0]);
            }
            assert(scan_spec(lines).1[0] == padded[0]);
        }
    }
}

/// A statement whose column list starts with a column has no table comment:
/// a comment written after a column is never taken for the table's, whatever
/// follows.
pub proof fn law_no_table_comment_after_first_column(lines: Seq<Seq<char>>)
    requires
        lines.len() >= 1,
        is_column_line(lines[0]),
    ensures
        table_comment_spec(scan_spec(lines).1) is None,
{
    lemma_first_column_leaves_slot_empty(lines);
}

/// The table comment is either absent or one of the comment lines.
pub proof fn law_table_comment_is_a_comment_line(lines: Seq<Seq<char>>)
    ensures
        table_comment_spec(scan_spec(lines).1) matches Some(t) ==> is_comment_line(t) && lines.contains(t),
        forall|i: int|
            0 <= i < scan_spec(lines).1.len() && (#[trigger] scan_spec(lines).1[i]) is Some ==> is_comment_line(
                scan_spec(lines).1[i]->0,
            ) && lines.contains(scan_spec(lines).1[i]->0),
    decreases lines.len(),
{
    if lines.len() > 0 {
        let init = lines.drop_last();
        law_table_comment_is_a_comment_line(init);
        let (cols, coms) = scan_spec(init);
        let all = scan_spec(lines).1;
        assert forall|i: int| 0 <= i < all.len() && (#[trigger] all[i]) is Some implies is_comment_line(
            all[i]->0,
        ) && lines.contains(all[i]->0) by {
            if i < coms.len() {
                if is_comment_line(lines.last()) {
                    assert(pad_comments(coms, cols.len())[i] == coms[i]);
                }
                assert(all[i] == coms[i]);
                let k = choose|k: int| 0 <= k < init.len() && init[k] == coms[i]->0;
                assert(lines[k] == init[k]);
            } else {
                assert(is_comment_line(lines.last()));
                let padded = pad_comments(coms, cols.len());
                if i < padded.len() {
                    assert(padded[i] == None::<Seq<char>>);
                } else {
                    assert(all[i] == Some(lines.last()));
                    assert(lines[lines.len() - 1] == lines.last());
                }
            }
        }
        if all.len() > 0 {
            assert(all[0] is Some ==> is_comment_line(all[0]->0));
        }
    }
}

/// Every comment line, but a leading one, comes right after a column line.
pub open spec fn comments_follow_columns(lines: Seq<Seq<char>>) -> bool {
    forall|j: int|
        0 < j < lines.len() && is_comment_line(#[trigger] lines[j]) ==> !is_comment_line(
            lines[j - 1],
        ) && !is_constraint_line(lines[j - 1])
}

/// While comments follow columns, the slots never run more than one past the
/// columns, and not past them right after a column line.
proof fn lemma_slots_track_columns(lines: Seq<Seq<char>>)
    requires
        comments_follow_columns(lines),
    ensures
        scan_spec(lines).1.len() <= scan_spec(lines).0.len() + 1,
        lines.len() > 0 && !is_comment_line(lines.last()) && !is_constraint_line(lines.last())
            ==> scan_spec(lines).1.len() <= scan_spec(lines).0.len(),
        lines.len() == 0 ==> scan_spec(lines).1.len() == 0,
    decreases lines.len(),
{
    if lines.len() > 0 {
        let init = lines.drop_last();
        assert(comments_follow_columns(init)) by {
            assert forall|j: int|
                0 < j < init.len() && is_comment_line(#[trigger] init[j]) implies !is_comment_line(
                init[j - 1],
            ) && !is_constraint_line(init[j - 1]) by {
                assert(init[j] == lines[j] && init[j - 1] == lines[j - 1]);
            }
        }
        lemma_slots_track_columns(init);
        if is_comment_line(lines.last()) && init.len() > 0 {
            assert(lines[lines.len() - 1] == lines.last());
            assert(init.last() == lines[lines.len() - 2]);
        }
    }
}

/// When every comment line but a leading one comes right after a column
/// line, each such comment is the comment of that column.
pub proof fn law_comment_after_column_is_its_comment(lines: Seq<Seq<char>>, j: int)
    requires
        comments_follow_columns(lines),
        0 < j < lines.len(),
        is_comment_line(lines[j]),
    ensures
        ({
            let c = scan_spec(lines.take(j)).0.len();
            &&& c >= 1
            &&& scan_spec(lines).0[c - 1] == first_word_spec(lines[j - 1])
            &&& column_comment_spec(scan_spec(lines).1, c - 1) == Some(lines[j])
        }),
{
    let before = lines.take(j);
    let upto = lines.take(j + 1);
    assert(comments_follow_columns(before)) by {
        assert forall|x: int|
            0 < x < before.len() && is_comment_line(#[trigger] before[x]) implies !is_comment_line(
            before[x - 1],
        ) && !is_constraint_line(before[x - 1]) by {
            assert(before[x] == lines[x] && before[x - 1] == lines[x - 1]);
        }
    }
    lemma_slots_track_columns(before);
    assert(before.last() == lines[j - 1]);
    let prev = lines.take(j - 1);
    assert(before.drop_last() =~= prev);
    let (cols, coms) = scan_spec(before);
    assert(cols == scan_spec(prev).0.push(first_word_spec(lines[j - 1])));
    assert(upto.drop_last() =~= before);
    assert(upto.last() == lines[j]);
    assert(coms.len() <= cols.len());
    let c = cols.len();
    assert(scan_spec(upto).1 =~= pad_comments(coms, c as nat).push(Some(lines[j])));
    assert(scan_spec(upto).1[c as int] == Some(lines[j]));
    lemma_scan_prefix(lines, j + 1);
    lemma_scan_prefix(lines, j);
    assert(scan_spec(lines).1[c as int] == Some(lines[j]));
    assert(scan_spec(lines).0[c - 1] == cols[c - 1]);
}

/// The trimmed, non-blank pieces of `splinters`.
pub fn column_lines(splinters: &Vec<String>) -> (res: Vec<String>)
    ensures
        res.deep_view() == column_lines_spec(splinters.deep_view()),
{
    let mut res: Vec<String> = Vec::new();
    let n = splinters.len();
    let mut i: usize = 0;
    while i < n
        invariant
            n == splinters@.len(),
            i <= n,
            res.deep_view() == column_lines_spec(splinters.deep_view().take(i as int)),
        decreases n - i,
    {
        let t = trim(splinters[i].as_str());
        proof {
            let all = splinters.deep_view();
            assert(all.take(i + 1).drop_last() =~= all.take(i as int));
            assert(all.take(i + 1).last() == splinters@[i as int]@);
        }
        if t.unicode_len() > 0 {
            let ghost before = res.deep_view();
            res.push(t);
            assert(res.deep_view() =~= before.push(t@));
        }
        i = i + 1;
    }
    assert(splinters.deep_view().take(n as int) =~= splinters.deep_view());
    res
}

/// The column names and comment slots of a sequence of column lines.
pub struct ColumnScan {
    pub columns: Vec<String>,
    pub comments: Vec<Option<String>>,
}

impl ColumnScan {
    /// The scan with text taken as characters.
    pub open spec fn model(&self) -> (Seq<Seq<char>>, Seq<Option<Seq<char>>>) {
        (self.columns.deep_view(), self.comments.deep_view())
    }
}

/// Scans `lines` into column names and comment slots.
pub fn scan_lines(lines: &Vec<String>) -> (res: ColumnScan)
    ensures
        res.model() == scan_spec(lines.deep_view()),
{
    let mut columns: Vec<String> = Vec::new();
    let mut comments: Vec<Option<String>> = Vec::new();
    let mut index: usize = 0;
    let n = lines.len();
    let mut i: usize = 0;
    while i < n
        invariant
            n == lines@.len(),
            i <= n,
            index == columns@.len(),
            index <= i,
            (columns.deep_view(), comments.deep_view()) == scan_spec(
                lines.deep_view().take(i as int),
            ),
        decreases n - i,
    {
        let line = &lines[i];
        proof {
            let all = lines.deep_view();
            assert(all.take(i + 1).drop_last() =~= all.take(i as int));
            assert(all.take(i + 1).last() == line@);
        }
        if starts_with(line.as_str(), "--") {
            let ghost before = comments.deep_view();
            if comments.len() < index {
                let start = comments.len();
                let mut k: usize = start;
                while k < index
                    invariant
                        start <= k <= index,
                        start == before.len(),
                        comments.deep_view() =~= before + Seq::new(
                            (k - start) as nat,
                            |x: int| None::<Seq<char>>,
                        ),
                    decreases index - k,
                {
                    let ghost prev = comments.deep_view();
                    comments.push(None);
                    assert(comments.deep_view() =~= prev.push(None));
                    k = k + 1;
                }
            }
            assert(comments.deep_view() =~= pad_comments(before, index as nat));
            let ghost padded = comments.deep_view();
            comments.push(Some(line.clone()));
            assert(comments.deep_view() =~= padded.push(Some(line@)));
        } else if starts_with(line.as_str(), "FOREIGN") {
        } else if starts_with(line.as_str(), "CHECK") {
        } else {
            let ghost before = columns.deep_view();
            let word = first_word(line.as_str());
            columns.push(word);
            assert(columns.deep_view() =~= before.push(first_word_spec(line@)));
            index = index + 1;
        }
        i = i + 1;
    }
    assert(lines.deep_view().take(n as int) =~= lines.deep_view());
    ColumnScan { columns, comments }
}

/// The table comment and the map from column names to their comments.
pub fn comments_from_scan(scan: &ColumnScan) -> (res: (Option<String>, TextMap<Option<String>>))
    requires
        comments_cover_columns(scan.model().0, scan.model().1),
    ensures
        res.0.deep_view() == table_comment_spec(scan.model().1),
        res.1@ == column_map_spec(scan.model().0, scan.model().1),
{
    let ghost cols = scan.columns.deep_view();
    let ghost coms = scan.comments.deep_view();
    let table_comment = if scan.comments.len() > 0 {
        scan.comments[0].clone()
    } else {
        None
    };
    let mut map: TextMap<Option<String>> = TextMap::new();
    let n = scan.columns.len();
    let mut i: usize = 0;
    while i < n
        invariant
            n == cols.len(),
            cols == scan.columns.deep_view(),
            coms == scan.comments.deep_view(),
            comments_cover_columns(cols, coms),
            i <= n,
            map@ == column_map_spec(cols.take(i as int), coms),
        decreases n - i,
    {
        let comment = if scan.comments.len() > 0 {
            scan.comments[i + 1].clone()
        } else {
            None
        };
        proof {
            assert(cols.take(i + 1).drop_last() =~= cols.take(i as int));
            assert(cols.take(i + 1).last() == cols[i as int]);
        }
        map.insert(scan.columns[i].clone(), comment);
        i = i + 1;
    }
    assert(cols.take(n as int) =~= cols);
    (table_comment, map)
}

} // verus!
