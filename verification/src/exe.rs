//! The shell line that builds a program and then runs it: the two commands
//! joined by `&&`.
use vstd::prelude::*;
use crate::text::views;

verus! {

/// The words of `words` separated by single spaces.
pub open spec fn join_words(words: Seq<Seq<char>>) -> Seq<char>
    decreases words.len(),
{
    if words.len() == 0 {
        Seq::empty()
    } else if words.len() == 1 {
        words[0]
    } else {
        join_words(words.drop_last()) + " "@ + words.last()
    }
}

/// The words of `words` separated by single spaces, as `join(" ")` makes
/// them.
pub fn join_with_spaces(words: &Vec<String>) -> (r: String)
    ensures
        r@ == join_words(views(words@)),
{
    let mut r = String::new();
    let mut i: usize = 0;
    while i < words.len()
        invariant
            i <= words.len(),
            r@ == join_words(views(words@).take(i as int)),
        decreases words.len() - i,
    {
        let ghost w = views(words@);
        assert(w.take(i + 1).drop_last() =~= w.take(i as int));
        if i > 0 {
            r.append(" ");
        }
        r.append(words[i].as_str());
        i = i + 1;
        assert(w.take(i as int).last() == words@[i - 1]@);
        if i == 1 {
            assert(join_words(w.take(1)) == w.take(1)[0]);
            assert(r@ =~= join_words(w.take(i as int)));
        }
    }
    assert(views(words@).take(i as int) =~= views(words@));
    r
}

/// The shell line that builds (when `compile`) and then runs the program:
/// the build command and the run command joined by ` && `, or the run
/// command alone.
pub fn command_line(compile: bool, compile_cmd: &Vec<String>, run_cmd: &Vec<String>) -> (r: String)
    ensures
        r@ == if compile {
            join_words(views(compile_cmd@)) + " && "@ + join_words(views(run_cmd@))
        } else {
            join_words(views(run_cmd@))
        },
{
    if compile {
        let mut line = join_with_spaces(compile_cmd);
        line.append(" && ");
        line.append(join_with_spaces(run_cmd).as_str());
        line
    } else {
        join_with_spaces(run_cmd)
    }
}

} // verus!
