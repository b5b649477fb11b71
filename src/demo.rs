//! The demonstration procedure: one fixed run of the text operations, and the
//! lines it prints, in order.
use vstd::prelude::*;
use vstd::string::StringExecFns;
use crate::text::{borrowed_suffix, change_string, get_length, moved_suffix, new_string};

verus! {

/// The literal that the second and third text values start from.
pub open spec fn greeting() -> Seq<char> {
    "Hello"@
}

/// What each line of a sequence of owned strings reads.
pub open spec fn views(lines: Seq<String>) -> Seq<Seq<char>> {
    lines.map_values(|l: String| l@)
}

/// The lines of one run: the value grown in place, the statement that the
/// moved-from value cannot be printed, the value built from the moved one,
/// and two shared borrows of one value printed together.
pub open spec fn transcript_lines() -> Seq<Seq<char>> {
    seq![
        greeting() + borrowed_suffix(),
        "Printing s1 is impossible, because it's out of scope."@,
        "Printing s3 = \""@ + (Seq::<char>::empty() + moved_suffix())
            + "\" is fine, because it's taken ownership of s1."@,
        greeting() + " and "@ + greeting(),
    ]
}

/// The lines laid end to end, each followed by a newline.
pub open spec fn terminated(lines: Seq<Seq<char>>) -> Seq<char>
    decreases lines.len(),
{
    if lines.len() == 0 {
        Seq::empty()
    } else {
        terminated(lines.drop_last()) + lines.last() + "\n"@
    }
}

/// Everything that one run writes to standard output.
pub open spec fn program_output() -> Seq<char> {
    terminated(transcript_lines())
}

/// Runs the fixed sequence of steps and returns the lines it prints.
pub fn demonstration() -> (lines: Vec<String>)
    ensures
        views(lines@) == transcript_lines(),
{
    let s1 = String::new();
    let _len = get_length(&s1);

    let mut s2 = String::from_str("Hello");
    change_string(&mut s2);
    let mut lines: Vec<String> = Vec::new();
    lines.push(s2);

    // s1 is moved here and cannot be named again.
    let s3 = new_string(s1);
    lines.push(String::from_str("Printing s1 is impossible, because it's out of scope."));
    let mut moved = String::from_str("Printing s3 = \"");
    moved.append(s3.as_str());
    moved.append("\" is fine, because it's taken ownership of s1.");
    lines.push(moved);

    let mut s4 = String::from_str("Hello");
    let r1 = &s4;
    let r2 = &s4;
    let mut shared = r1.clone();
    shared.append(" and ");
    shared.append(r2.as_str());
    lines.push(shared);
    // The shared borrows are no longer used, so an exclusive one may begin.
    let _r3 = &mut s4;

    assert(views(lines@) =~= transcript_lines());
    lines
}

/// Joins `lines`, each followed by a newline.
pub fn render(lines: &Vec<String>) -> (out: String)
    ensures
        out@ == terminated(views(lines@)),
{
    let mut out = String::new();
    let mut i: usize = 0;
    while i < lines.len()
        invariant
            i <= lines.len(),
            out@ == terminated(views(lines@.subrange(0, i as int))),
        decreases lines.len() - i,
    {
        out.append(lines[i].as_str());
        out.append("\n");
        proof {
            let done = views(lines@.subrange(0, i + 1));
            assert(done.drop_last() =~= views(lines@.subrange(0, i as int)));
            assert(done.last() == lines@[i as int]@);
        }
        i += 1;
    }
    assert(lines@.subrange(0, i as int) =~= lines@);
    out
}

/// The text that one run writes to standard output.
pub fn program_text() -> (out: String)
    ensures
        out@ == program_output(),
{
    let lines = demonstration();
    render(&lines)
}

/// A run writes four lines in a fixed order: the value grown in place, the
/// statement about the moved-from value, the message that embeds the value
/// built from it, and the two shared borrows joined.
pub proof fn lemma_output_order()
    ensures
        program_output() == (greeting() + borrowed_suffix()) + "\n"@
            + "Printing s1 is impossible, because it's out of scope."@ + "\n"@
            + ("Printing s3 = \""@ + moved_suffix()
            + "\" is fine, because it's taken ownership of s1."@) + "\n"@
            + (greeting() + " and "@ + greeting()) + "\n"@,
{
    let lines = transcript_lines();
    assert(Seq::<char>::empty() + moved_suffix() =~= moved_suffix());
    assert(lines.drop_last().drop_last().drop_last().drop_last() =~= Seq::<Seq<char>>::empty());
    reveal_with_fuel(terminated, 5);
    assert(program_output() =~= (greeting() + borrowed_suffix()) + "\n"@
        + "Printing s1 is impossible, because it's out of scope."@ + "\n"@
        + ("Printing s3 = \""@ + moved_suffix()
        + "\" is fine, because it's taken ownership of s1."@) + "\n"@
        + (greeting() + " and "@ + greeting()) + "\n"@);
}

/// The output depends on no input, clock or chance: the text of any two runs
/// is the same.
pub proof fn lemma_output_repeatable(first: Seq<char>, second: Seq<char>)
    requires
        first == program_output(),
        second == program_output(),
    ensures
        first == second,
{
}

} // verus!
