//! What a check of one code assist decides: which of the offered assists is
//! meant, what its edits render to, and whether that meets the expectation.
//!
//! Running an assist over a fixture is the caller's part. The functions here
//! take the assists that were offered and say how the check ends.

use vstd::prelude::*;
use vstd::string::*;
use vstd::utf8::{encode_utf8, is_char_boundary};

verus! {

/// A range of a text, in bytes.
#[derive(Clone, Copy, Debug, PartialEq, Eq, Hash, Structural)]
pub struct TextRange {
    pub start: u32,
    pub end: u32,
}

/// A file and the text it holds once the assist was applied.
#[derive(Clone, Debug, PartialEq, Eq)]
pub struct FileText {
    pub path: String,
    pub text: String,
}

/// What an assist changes: the files it edits, each with its text after the
/// edit, and the files it creates, each with its first contents.
#[derive(Clone, Debug, PartialEq, Eq)]
pub struct SourceChange {
    pub source_file_edits: Vec<FileText>,
    pub file_system_edits: Vec<FileText>,
    pub is_snippet: bool,
}

/// One offered code assist. An assist that was not resolved carries no
/// source change.
#[derive(Clone, Debug, PartialEq, Eq)]
pub struct Assist {
    pub id: String,
    pub label: String,
    pub group: Option<String>,
    pub target: TextRange,
    pub source_change: Option<SourceChange>,
}

/// What a check expects of the assist under test.
#[derive(Clone, Debug, PartialEq, Eq)]
pub enum ExpectedResult {
    NotApplicable,
    Unresolved,
    After(String),
    Target(String),
}

/// An expectation with its texts as sequences of characters.
pub enum ExpectedResultView {
    NotApplicable,
    Unresolved,
    After(Seq<char>),
    Target(Seq<char>),
}

impl View for ExpectedResult {
    type V = ExpectedResultView;

    open spec fn view(&self) -> ExpectedResultView {
        match self {
            ExpectedResult::NotApplicable => ExpectedResultView::NotApplicable,
            ExpectedResult::Unresolved => ExpectedResultView::Unresolved,
            ExpectedResult::After(after) => ExpectedResultView::After(after@),
            ExpectedResult::Target(target) => ExpectedResultView::Target(target@),
        }
    }
}

/// Why a check fails.
#[derive(Clone, Copy, Debug, PartialEq, Eq, Hash, Structural)]
pub enum CheckFailure {
    /// An assist was expected and none was offered.
    NotApplicable,
    /// No assist was expected and one was offered.
    Applicable,
    /// The assist holds no source change where one was expected.
    NoSourceChange,
    /// The source change edits no file.
    NoFileEdits,
    /// The edits render to another text than the expected one.
    TextMismatch,
    /// The target range does not lie on character boundaries of the text.
    TargetOutOfText,
    /// The target range holds another text than the expected one.
    TargetMismatch,
    /// The assist holds a source change where it should be unresolved.
    Resolved,
}

// ---------------------------------------------------------------------------
// Labels

/// The line that stands for an assist in a listing: the name of its group,
/// or its own label where it has no group.
pub open spec fn assist_line(a: Assist) -> Seq<char> {
    match a.group {
        Some(g) => g@.push('\n'),
        None => a.label@.push('\n'),
    }
}

/// The lines of the assists in order, where a line that repeats the line
/// directly before it is left out.
pub open spec fn labels_text(s: Seq<Assist>) -> Seq<char>
    decreases s.len(),
{
    if s.len() == 0 {
        Seq::empty()
    } else if s.len() >= 2 && assist_line(s[s.len() - 2]) == assist_line(s[s.len() - 1]) {
        labels_text(s.drop_last())
    } else {
        labels_text(s.drop_last()) + assist_line(s.last())
    }
}

/// Lists the assists, one line each; neighbours of one group share a line.
pub fn labels(assists: &Vec<Assist>) -> (r: String)
    ensures
        r@ == labels_text(assists@),
{
    let mut out = String::new();
    let mut prev: Option<String> = None;
    let mut i: usize = 0;
    while i < assists.len()
        invariant
            i <= assists.len(),
            out@ == labels_text(assists@.take(i as int)),
            i == 0 ==> prev is None,
            i > 0 ==> (prev matches Some(p) && p@ == assist_line(assists@[i - 1])),
        decreases assists.len() - i,
    {
        let a = &assists[i];
        let mut line = match &a.group {
            Some(g) => g.clone(),
            None => a.label.clone(),
        };
        proof {
            reveal_strlit("\n");
        }
        line.append("\n");
        assert(line@ =~= assist_line(assists@[i as int]));
        let repeated = match &prev {
            Some(p) => *p == line,
            None => false,
        };
        proof {
            let before = assists@.take(i as int);
            let now = assists@.take(i + 1);
            assert(now.drop_last() =~= before);
            assert(now.last() == assists@[i as int]);
            if i > 0 {
                assert(now[now.len() - 2] == assists@[i - 1]);
            }
        }
        if !repeated {
            out.append(line.as_str());
        }
        prev = Some(line);
        i += 1;
    }
    assert(assists@.take(assists.len() as int) =~= assists@);
    out
}

// ---------------------------------------------------------------------------
// The assist under check

/// Whether the assist at `i` is the first that carries `label`.
pub open spec fn is_first_labelled(s: Seq<Assist>, label: Seq<char>, i: int) -> bool {
    &&& 0 <= i < s.len()
    &&& s[i].label@ == label
    &&& forall|j: int| 0 <= j < i ==> (#[trigger] s[j]).label@ != label
}

/// The assist that a check is about: the first that carries the given label,
/// or the last that was offered where no label is given.
pub open spec fn chosen(s: Seq<Assist>, label: Option<Seq<char>>) -> Option<int> {
    match label {
        Some(l) => if exists|i: int| is_first_labelled(s, l, i) {
            Some(choose|i: int| is_first_labelled(s, l, i))
        } else {
            None
        },
        None => if s.len() > 0 {
            Some(s.len() - 1)
        } else {
            None
        },
    }
}

pub open spec fn label_view(label: Option<&str>) -> Option<Seq<char>> {
    match label {
        Some(l) => Some(l@),
        None => None,
    }
}

/// Finds the assist that a check is about.
pub fn chosen_assist(assists: &Vec<Assist>, assist_label: Option<&str>) -> (r: Option<usize>)
    ensures
        r matches Some(i) ==> chosen(assists@, label_view(assist_label)) == Some(i as int),
        r is None ==> chosen(assists@, label_view(assist_label)) is None,
{
    match assist_label {
        Some(l) => {
            let wanted: String = l.to_owned();
            let mut i: usize = 0;
            while i < assists.len()
                invariant
                    i <= assists.len(),
                    wanted@ == l@,
                    assist_label == Some(l),
                    forall|j: int| 0 <= j < i ==> (#[trigger] assists@[j]).label@ != l@,
                decreases assists.len() - i,
            {
                if assists[i].label == wanted {
                    assert(is_first_labelled(assists@, l@, i as int));
                    assert forall|k: int| is_first_labelled(assists@, l@, k) implies k == i by {
                        if k < i {
                            assert(assists@[k].label@ != l@);
                        } else if k > i {
                            assert(assists@[i as int].label@ != l@);
                        }
                    }
                    return Some(i);
                }
                i += 1;
            }
            None
        },
        None => {
            if assists.len() > 0 {
                Some(assists.len() - 1)
            } else {
                None
            }
        },
    }
}

// ---------------------------------------------------------------------------
// What a source change renders to

/// The line that announces a file in a rendering of several files.
pub open spec fn file_header(path: Seq<char>) -> Seq<char> {
    seq!['/', '/', '-', ' '] + path + seq!['\n']
}

/// The texts of the files in order, each after its header where headers are
/// asked for.
pub open spec fn files_text(files: Seq<FileText>, with_header: bool) -> Seq<char>
    decreases files.len(),
{
    if files.len() == 0 {
        Seq::empty()
    } else if with_header {
        files_text(files.drop_last(), with_header) + file_header(files.last().path@)
            + files.last().text@
    } else {
        files_text(files.drop_last(), with_header) + files.last().text@
    }
}

/// The text that stands for a source change: the edited files, then the
/// created files. A change that edits one file and creates none is that
/// file's text alone; in every other change each file follows its header.
pub open spec fn rendered_text(c: SourceChange) -> Seq<char> {
    let skip_header = c.source_file_edits@.len() == 1 && c.file_system_edits@.len() == 0;
    files_text(c.source_file_edits@, !skip_header) + files_text(c.file_system_edits@, true)
}

fn append_files(buf: &mut String, files: &Vec<FileText>, with_header: bool)
    ensures
        final(buf)@ == old(buf)@ + files_text(files@, with_header),
{
    let mut i: usize = 0;
    while i < files.len()
        invariant
            i <= files.len(),
            buf@ == old(buf)@ + files_text(files@.take(i as int), with_header),
        decreases files.len() - i,
    {
        proof {
            reveal_strlit("//- ");
            reveal_strlit("\n");
            let now = files@.take(i + 1);
            assert(now.drop_last() =~= files@.take(i as int));
            assert(now.last() == files@[i as int]);
        }
        let ghost before = buf@;
        if with_header {
            buf.append("//- ");
            buf.append(files[i].path.as_str());
            buf.append("\n");
            assert(buf@ =~= before + file_header(files@[i as int].path@));
        }
        buf.append(files[i].text.as_str());
        assert(buf@ =~= old(buf)@ + files_text(files@.take(i + 1), with_header));
        i += 1;
    }
    assert(files@.take(files.len() as int) =~= files@);
}

/// Renders a source change to the one text that an expectation is held
/// against.
pub fn render(change: &SourceChange) -> (r: String)
    ensures
        r@ == rendered_text(*change),
{
    let skip_header = change.source_file_edits.len() == 1 && change.file_system_edits.len() == 0;
    let mut buf = String::new();
    append_files(&mut buf, &change.source_file_edits, !skip_header);
    append_files(&mut buf, &change.file_system_edits, true);
    assert(buf@ =~= rendered_text(*change));
    buf
}

// ---------------------------------------------------------------------------
// The verdict

/// Whether `range` cuts a text out of `text`, and whether that text is
/// `target`. The range counts bytes of the UTF-8 form of `text`.
pub open spec fn target_verdict(text: Seq<char>, range: TextRange, target: Seq<char>) -> Result<
    (),
    CheckFailure,
> {
    let bytes = encode_utf8(text);
    if !(range.start <= range.end && range.end <= bytes.len() && is_char_boundary(
        bytes,
        range.start as int,
    ) && is_char_boundary(bytes, range.end as int)) {
        Err(CheckFailure::TargetOutOfText)
    } else if bytes.subrange(range.start as int, range.end as int) == encode_utf8(target) {
        Ok(())
    } else {
        Err(CheckFailure::TargetMismatch)
    }
}

/// How the check of one assist ends, given the assist that was chosen, if
/// any, and the text of the file it was offered in.
pub open spec fn verdict(
    assist: Option<Assist>,
    text: Seq<char>,
    expected: ExpectedResultView,
) -> Result<(), CheckFailure> {
    match (assist, expected) {
        (Some(a), ExpectedResultView::After(after)) => match a.source_change {
            None => Err(CheckFailure::NoSourceChange),
            Some(c) => if c.source_file_edits@.len() == 0 {
                Err(CheckFailure::NoFileEdits)
            } else if rendered_text(c) == after {
                Ok(())
            } else {
                Err(CheckFailure::TextMismatch)
            },
        },
        (Some(a), ExpectedResultView::Target(target)) => target_verdict(text, a.target, target),
        (Some(a), ExpectedResultView::Unresolved) => if a.source_change is None {
            Ok(())
        } else {
            Err(CheckFailure::Resolved)
        },
        (Some(_), ExpectedResultView::NotApplicable) => Err(CheckFailure::Applicable),
        (None, ExpectedResultView::NotApplicable) => Ok(()),
        (None, _) => Err(CheckFailure::NotApplicable),
    }
}

/// How a check ends that is given the assists that were offered.
pub open spec fn check_verdict(
    assists: Seq<Assist>,
    text: Seq<char>,
    expected: ExpectedResultView,
    label: Option<Seq<char>>,
) -> Result<(), CheckFailure> {
    match chosen(assists, label) {
        Some(i) => verdict(Some(assists[i]), text, expected),
        None => verdict(None, text, expected),
    }
}

/// Whether the bytes of `text` from `start` up to `end` are those of `wanted`.
fn range_holds(text: &[u8], start: usize, end: usize, wanted: &[u8]) -> (r: bool)
    requires
        start <= end <= text@.len(),
    ensures
        r == (text@.subrange(start as int, end as int) == wanted@),
{
    let ghost cut = text@.subrange(start as int, end as int);
    if end - start != wanted.len() {
        assert(cut.len() != wanted@.len());
        return false;
    }
    let mut k: usize = 0;
    while k < wanted.len()
        invariant
            k <= wanted.len(),
            end - start == wanted.len(),
            end <= text@.len(),
            cut == text@.subrange(start as int, end as int),
            forall|j: int| 0 <= j < k ==> cut[j] == wanted@[j],
        decreases wanted.len() - k,
    {
        if text[start + k] != wanted[k] {
            assert(cut[k as int] != wanted@[k as int]);
            return false;
        }
        k += 1;
    }
    assert(cut =~= wanted@);
    true
}

fn check_target(text: &str, range: TextRange, target: &str) -> (r: Result<(), CheckFailure>)
    ensures
        r == target_verdict(text@, range, target@),
{
    let bytes = text.as_bytes();
    let wanted = target.as_bytes();
    if !(range.start <= range.end && range.end as usize <= bytes.len() && text.is_char_boundary(
        range.start as usize,
    ) && text.is_char_boundary(range.end as usize)) {
        return Err(CheckFailure::TargetOutOfText);
    }
    if range_holds(bytes, range.start as usize, range.end as usize, wanted) {
        Ok(())
    } else {
        Err(CheckFailure::TargetMismatch)
    }
}

fn check_one(assist: Option<&Assist>, text: &str, expected: &ExpectedResult) -> (r: Result<
    (),
    CheckFailure,
>)
    ensures
        r == verdict(
            match assist {
                Some(a) => Some(*a),
                None => None,
            },
            text@,
            expected@,
        ),
{
    match assist {
        Some(a) => match expected {
            ExpectedResult::After(after) => match &a.source_change {
                None => Err(CheckFailure::NoSourceChange),
                Some(c) => {
                    if c.source_file_edits.len() == 0 {
                        Err(CheckFailure::NoFileEdits)
                    } else {
                        let buf = render(c);
                        if buf == *after {
                            Ok(())
                        } else {
                            Err(CheckFailure::TextMismatch)
                        }
                    }
                },
            },
            ExpectedResult::Target(target) => check_target(text, a.target, target.as_str()),
            ExpectedResult::Unresolved => {
                if a.source_change.is_none() {
                    Ok(())
                } else {
                    Err(CheckFailure::Resolved)
                }
            },
            ExpectedResult::NotApplicable => Err(CheckFailure::Applicable),
        },
        None => match expected {
            ExpectedResult::NotApplicable => Ok(()),
            _ => Err(CheckFailure::NotApplicable),
        },
    }
}

/// Checks the assists that were offered against what is expected of the
/// assist under test: the first that carries `assist_label`, or the last
/// one where no label is given.
pub fn check(
    assists: &Vec<Assist>,
    text_without_caret: &str,
    expected: &ExpectedResult,
    assist_label: Option<&str>,
) -> (r: Result<(), CheckFailure>)
    ensures
        r == check_verdict(assists@, text_without_caret@, expected@, label_view(assist_label)),
{
    match chosen_assist(assists, assist_label) {
        Some(i) => check_one(Some(&assists[i]), text_without_caret, expected),
        None => check_one(None, text_without_caret, expected),
    }
}

/// Checks that the last assist offered is resolved and that its edits render
/// to `after`.
pub fn check_assist(assists: &Vec<Assist>, text_without_caret: &str, after: &str) -> (r: Result<
    (),
    CheckFailure,
>)
    ensures
        r == check_verdict(
            assists@,
            text_without_caret@,
            ExpectedResultView::After(after@),
            None,
        ),
{
    let expected = ExpectedResult::After(after.to_owned());
    check(assists, text_without_caret, &expected, None)
}

/// As `check_assist`, for the first assist that carries `label`.
pub fn check_assist_by_label(
    assists: &Vec<Assist>,
    text_without_caret: &str,
    after: &str,
    label: &str,
) -> (r: Result<(), CheckFailure>)
    ensures
        r == check_verdict(
            assists@,
            text_without_caret@,
            ExpectedResultView::After(after@),
            Some(label@),
        ),
{
    let expected = ExpectedResult::After(after.to_owned());
    check(assists, text_without_caret, &expected, Some(label))
}

/// Checks that the last assist offered targets the text `target`.
pub fn check_assist_target(assists: &Vec<Assist>, text_without_caret: &str, target: &str) -> (r:
    Result<(), CheckFailure>)
    ensures
        r == check_verdict(
            assists@,
            text_without_caret@,
            ExpectedResultView::Target(target@),
            None,
        ),
{
    let expected = ExpectedResult::Target(target.to_owned());
    check(assists, text_without_caret, &expected, None)
}

/// Checks that no assist was offered.
pub fn check_assist_not_applicable(assists: &Vec<Assist>) -> (r: Result<(), CheckFailure>)
    ensures
        r == (if assists@.len() == 0 {
            Ok::<(), CheckFailure>(())
        } else {
            Err(CheckFailure::Applicable)
        }),
{
    check(assists, "", &ExpectedResult::NotApplicable, None)
}

/// Checks that the last assist offered carries no source change.
pub fn check_assist_unresolved(assists: &Vec<Assist>) -> (r: Result<(), CheckFailure>)
    ensures
        r == (if assists@.len() == 0 {
            Err::<(), CheckFailure>(CheckFailure::NotApplicable)
        } else if assists@.last().source_change is None {
            Ok(())
        } else {
            Err(CheckFailure::Resolved)
        }),
{
    check(assists, "", &ExpectedResult::Unresolved, None)
}

// ---------------------------------------------------------------------------
// Checking the example in the documentation of an assist

/// Whether the assist at `i` is the first with the identifier `id`.
pub open spec fn is_first_with_id(s: Seq<Assist>, id: Seq<char>, i: int) -> bool {
    &&& 0 <= i < s.len()
    &&& s[i].id@ == id
    &&& forall|j: int| 0 <= j < i ==> (#[trigger] s[j]).id@ != id
}

/// Whether the file at `i` is the first with the path `path`.
pub open spec fn is_first_at_path(files: Seq<FileText>, path: Seq<char>, i: int) -> bool {
    &&& 0 <= i < files.len()
    &&& files[i].path@ == path
    &&& forall|j: int| 0 <= j < i ==> (#[trigger] files[j]).path@ != path
}

/// The text of the file at `path` once the change was applied: the text of
/// its first edit of that file, or `before` where it edits the file not at
/// all.
pub open spec fn text_after(change: SourceChange, path: Seq<char>, before: Seq<char>) -> Seq<char> {
    if exists|i: int| is_first_at_path(change.source_file_edits@, path, i) {
        change.source_file_edits@[choose|i: int|
            is_first_at_path(change.source_file_edits@, path, i)].text@
    } else {
        before
    }
}

/// How the check of a documented example ends: the assist with the given
/// identifier is among those offered, is resolved, and turns the text
/// `before` of the file at `path` into `after`.
pub open spec fn doc_test_verdict(
    assists: Seq<Assist>,
    id: Seq<char>,
    path: Seq<char>,
    before: Seq<char>,
    after: Seq<char>,
) -> Result<(), CheckFailure> {
    if !exists|i: int| is_first_with_id(assists, id, i) {
        Err(CheckFailure::NotApplicable)
    } else {
        match assists[choose|i: int| is_first_with_id(assists, id, i)].source_change {
            None => Err(CheckFailure::NoSourceChange),
            Some(change) => if text_after(change, path, before) == after {
                Ok(())
            } else {
                Err(CheckFailure::TextMismatch)
            },
        }
    }
}

fn find_by_id(assists: &Vec<Assist>, assist_id: &str) -> (r: Option<usize>)
    ensures
        r matches Some(i) ==> is_first_with_id(assists@, assist_id@, i as int),
        r is None ==> !exists|i: int| is_first_with_id(assists@, assist_id@, i),
{
    let wanted: String = assist_id.to_owned();
    let mut i: usize = 0;
    while i < assists.len()
        invariant
            i <= assists.len(),
            wanted@ == assist_id@,
            forall|j: int| 0 <= j < i ==> (#[trigger] assists@[j]).id@ != assist_id@,
        decreases assists.len() - i,
    {
        if assists[i].id == wanted {
            return Some(i);
        }
        i += 1;
    }
    None
}

fn find_by_path(files: &Vec<FileText>, path: &str) -> (r: Option<usize>)
    ensures
        r matches Some(i) ==> is_first_at_path(files@, path@, i as int),
        r is None ==> !exists|i: int| is_first_at_path(files@, path@, i),
{
    let wanted: String = path.to_owned();
    let mut i: usize = 0;
    while i < files.len()
        invariant
            i <= files.len(),
            wanted@ == path@,
            forall|j: int| 0 <= j < i ==> (#[trigger] files@[j]).path@ != path@,
        decreases files.len() - i,
    {
        if files[i].path == wanted {
            return Some(i);
        }
        i += 1;
    }
    None
}

/// Checks the example in the documentation of the assist `assist_id`: that
/// the assist is among those offered, resolved, for the text `before` of
/// the file at `path`, and that it turns that text into `after`.
pub fn check_doc_test(
    assists: &Vec<Assist>,
    assist_id: &str,
    path: &str,
    before: &str,
    after: &str,
) -> (r: Result<(), CheckFailure>)
    ensures
        r == doc_test_verdict(assists@, assist_id@, path@, before@, after@),
{
    match find_by_id(assists, assist_id) {
        None => Err(CheckFailure::NotApplicable),
        Some(i) => {
            assert forall|k: int| is_first_with_id(assists@, assist_id@, k) implies k == i by {
                if k < i {
                    assert(assists@[k].id@ != assist_id@);
                } else if k > i {
                    assert(assists@[i as int].id@ != assist_id@);
                }
            }
            match &assists[i].source_change {
                None => Err(CheckFailure::NoSourceChange),
                Some(change) => {
                    let expected: String = after.to_owned();
                    let same = match find_by_path(&change.source_file_edits, path) {
                        Some(j) => {
                            assert forall|k: int|
                                is_first_at_path(
                                    change.source_file_edits@,
                                    path@,
                                    k,
                                ) implies k == j by {
                                if k < j {
                                    assert(change.source_file_edits@[k].path@ != path@);
                                } else if k > j {
                                    assert(change.source_file_edits@[j as int].path@ != path@);
                                }
                            }
                            change.source_file_edits[j].text == expected
                        },
                        None => before.to_owned() == expected,
                    };
                    if same {
                        Ok(())
                    } else {
                        Err(CheckFailure::TextMismatch)
                    }
                },
            }
        },
    }
}

} // verus!
