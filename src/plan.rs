use vstd::prelude::*;
use crate::access::{checked, CheckAction, Verdict};
use crate::error::{error_text, TailorError};

verus! {

/// A command to run: the executable's name and its arguments, in order.
#[derive(Debug)]
pub struct Invocation {
    pub program: String,
    pub args: Vec<String>,
}

/// The text of each string in `s`.
pub open spec fn texts(s: Seq<String>) -> Seq<Seq<char>> {
    s.map_values(|x: String| x@)
}

/// The text of `inv`: its program, then its arguments.
pub open spec fn invocation_view(inv: Invocation) -> (Seq<char>, Seq<Seq<char>>) {
    (inv.program@, texts(inv.args@))
}

/// What is run for `file`, given the fallback command (executable first) and
/// whether the file can be tailed: `tail file`; or the fallback with the path
/// appended; or, with no fallback, a failure.
pub open spec fn planned_as(
    file: Seq<char>,
    fallback: Seq<Seq<char>>,
    tailable: bool,
    r: Result<Invocation, TailorError>,
) -> bool {
    if tailable {
        r matches Ok(inv) && invocation_view(inv) == ("tail"@, seq![file])
    } else if fallback.len() == 0 {
        r matches Err(TailorError::NoFallback { path }) && path@ == file
    } else {
        r matches Ok(inv) && invocation_view(inv) == (fallback[0], fallback.drop_first().push(file))
    }
}

/// Decides what to run for `file`: `tail file` when it can be tailed, else the
/// fallback command with `file` appended as its last argument.
pub fn plan_invocation(file: &str, fallback: &Vec<String>, tailable: bool) -> (r: Result<
    Invocation,
    TailorError,
>)
    ensures
        planned_as(file@, texts(fallback@), tailable, r),
{
    if tailable {
        let mut args: Vec<String> = Vec::new();
        args.push(file.to_owned());
        proof {
            assert(texts(args@) =~= seq![file@]);
        }
        return Ok(Invocation { program: String::from_str("tail"), args });
    }
    if fallback.len() == 0 {
        return Err(TailorError::NoFallback { path: file.to_owned() });
    }
    let ghost rest = texts(fallback@).drop_first();
    let mut args: Vec<String> = Vec::new();
    let mut i: usize = 1;
    while i < fallback.len()
        invariant
            1 <= i <= fallback@.len(),
            texts(args@) =~= rest.take(i - 1),
            rest == texts(fallback@).drop_first(),
        decreases fallback@.len() - i,
    {
        let ghost before = args@;
        args.push(fallback[i].clone());
        proof {
            assert(texts(args@) =~= texts(before).push(fallback@[i as int]@));
            assert(rest.take(i as int) =~= rest.take(i - 1).push(rest[i - 1]));
        }
        i = i + 1;
    }
    let ghost before = args@;
    args.push(file.to_owned());
    proof {
        assert(rest.take(i - 1) =~= rest);
        assert(texts(args@) =~= texts(before).push(file@));
    }
    Ok(Invocation { program: fallback[0].clone(), args })
}

/// `parts` with one space between each two.
pub open spec fn joined(parts: Seq<Seq<char>>) -> Seq<char>
    decreases parts.len(),
{
    if parts.len() == 0 {
        seq![]
    } else if parts.len() == 1 {
        parts[0]
    } else {
        joined(parts.drop_last()) + seq![' '] + parts.last()
    }
}

/// Joins `parts` with one space between each two.
pub fn join_words(parts: &Vec<String>) -> (r: String)
    ensures
        r@ == joined(texts(parts@)),
{
    let ghost words = texts(parts@);
    let mut s = String::new();
    let mut i: usize = 0;
    while i < parts.len()
        invariant
            0 <= i <= parts@.len(),
            words == texts(parts@),
            s@ == joined(words.take(i as int)),
        decreases parts@.len() - i,
    {
        let ghost before = s@;
        proof {
            reveal_strlit(" ");
            assert(" "@ =~= seq![' ']);
            assert(words.take(i + 1).drop_last() =~= words.take(i as int));
            assert(words.take(i + 1).last() == parts@[i as int]@);
        }
        if i > 0 {
            s.append(" ");
        }
        s.append(parts[i].as_str());
        proof {
            if i == 0 {
                assert(s@ =~= joined(words.take(1)));
            } else {
                assert(s@ =~= before + seq![' '] + parts@[i as int]@);
            }
        }
        i = i + 1;
    }
    proof {
        assert(words.take(i as int) =~= words);
    }
    s
}

/// The line logged before a fallback runs for `file`.
pub open spec fn announcement_text(file: Seq<char>, inv: (Seq<char>, Seq<Seq<char>>)) -> Seq<char> {
    "file "@ + file + " cannot be tailed, executing: "@ + inv.0 + " "@ + joined(inv.1)
}

/// The line to log before `inv` runs in place of tailing `file`.
pub fn announcement(file: &str, inv: &Invocation) -> (r: String)
    ensures
        r@ == announcement_text(file@, invocation_view(*inv)),
{
    let mut s = String::from_str("file ");
    s.append(file);
    s.append(" cannot be tailed, executing: ");
    s.append(inv.program.as_str());
    s.append(" ");
    let words = join_words(&inv.args);
    s.append(words.as_str());
    s
}

/// Whether `word` occurs in `s`.
pub open spec fn contains(s: Seq<char>, word: Seq<char>) -> bool {
    exists|i: int| 0 <= i && i + word.len() <= s.len() && #[trigger] s.subrange(i, i + word.len()) == word
}

/// A path whose check ends tailable is tailed: `tail` runs with the path as
/// its one and only argument, whatever fallback was given.
pub proof fn accessible_file_is_tailed(
    file: Seq<char>,
    fallback: Seq<Seq<char>>,
    present: bool,
    metadata: Result<bool, String>,
    open: Result<(), String>,
    r: Result<Invocation, TailorError>,
)
    requires
        checked(present, metadata, open) == CheckAction::Done(Verdict::Tailable),
        planned_as(file, fallback, true, r),
    ensures
        present && metadata == Ok::<bool, String>(false) && open is Ok,
        r matches Ok(inv) && inv.program@ == "tail"@ && inv.args@.len() == 1
            && inv.args@[0]@ == file,
{
    let args = r->Ok_0.args@;
    assert(texts(args) == seq![file]);
    assert(texts(args).len() == args.len());
    assert(texts(args)[0] == args[0]@);
}

/// A path that cannot be tailed, with the fallback `touch`, runs `touch`
/// on that path.
pub proof fn touch_fallback_gets_the_path(file: Seq<char>, r: Result<Invocation, TailorError>)
    requires
        planned_as(file, seq!["touch"@], false, r),
    ensures
        r matches Ok(inv) && invocation_view(inv) == ("touch"@, seq![file]),
{
    assert(seq!["touch"@].drop_first().push(file) =~= seq![file]);
}

/// A path that cannot be tailed, with no fallback, is a failure of this
/// program whose message says that no fallback command was given.
pub proof fn missing_fallback_is_fatal(file: Seq<char>, r: Result<Invocation, TailorError>)
    requires
        planned_as(file, seq![], false, r),
    ensures
        r matches Err(e) && e is NoFallback && contains(error_text(e), "no fallback command"@),
{
    let e = r->Err_0;
    let head = "File '"@ + file;
    let tail = "' is not readable and no fallback command specified."@;
    let word = "no fallback command"@;
    reveal_strlit("' is not readable and no fallback command specified.");
    reveal_strlit("no fallback command");
    assert(error_text(e) == head + tail);
    let i: int = head.len() as int + 22;
    assert(tail.subrange(22, 41) =~= word);
    assert((head + tail).subrange(i, i + word.len() as int) =~= tail.subrange(22, 41));
}

/// The program named as its own fallback chains: `file1 program file2 touch file3`
/// runs the program on `file2` with `touch file3 file1` as its fallback, and
/// when `file2` cannot be tailed either, `touch` gets all three paths.
pub proof fn self_fallback_chains(
    program: Seq<char>,
    touch: Seq<char>,
    file1: Seq<char>,
    file2: Seq<char>,
    file3: Seq<char>,
    outer: Result<Invocation, TailorError>,
    inner: Result<Invocation, TailorError>,
)
    requires
        planned_as(file1, seq![program, file2, touch, file3], false, outer),
        outer is Ok,
        planned_as(
            texts(outer->Ok_0.args@)[0],
            texts(outer->Ok_0.args@).drop_first(),
            false,
            inner,
        ),
    ensures
        invocation_view(outer->Ok_0) == (program, seq![file2, touch, file3, file1]),
        inner matches Ok(inv) && invocation_view(inv) == (touch, seq![file3, file1, file2]),
{
    assert(seq![program, file2, touch, file3].drop_first().push(file1) =~= seq![file2, touch, file3, file1]);
    assert(seq![file2, touch, file3, file1].drop_first().push(file2) =~= seq![touch, file3, file1, file2]);
    assert(seq![touch, file3, file1, file2].drop_first() =~= seq![file3, file1, file2]);
}

} // verus!
