use vstd::prelude::*;
use vstd::string::*;

verus! {

/// The lines of `lines` joined with line breaks between them.
pub open spec fn join_lines(lines: Seq<Seq<char>>) -> Seq<char>
    decreases lines.len(),
{
    if lines.len() == 0 {
        Seq::empty()
    } else if lines.len() == 1 {
        lines[0]
    } else {
        join_lines(lines.drop_last()) + seq!['\n'] + lines.last()
    }
}

/// Law: joining puts exactly one line break between consecutive lines and
/// none before the first or after the last: no line gives nothing, one line
/// gives itself, and one more line adds a break and that line at the end. The
/// joined text is as long as the lines together plus one per break.
pub proof fn law_join_lines(lines: Seq<Seq<char>>, line: Seq<char>)
    ensures
        join_lines(Seq::empty()) == Seq::<char>::empty(),
        join_lines(seq![line]) == line,
        lines.len() > 0 ==> join_lines(lines.push(line)) == join_lines(lines) + seq!['\n'] + line,
        lines.len() > 0 ==> join_lines(lines.push(line)).len() == join_lines(lines).len() + 1
            + line.len(),
{
    if lines.len() > 0 {
        assert(lines.push(line).drop_last() =~= lines);
    }
}

/// The reasons for which the candidate VDP modules could not be opened, one
/// per candidate tried, in the order in which they were tried.
pub struct LoadFailures {
    messages: Vec<String>,
}

impl View for LoadFailures {
    type V = Seq<Seq<char>>;

    closed spec fn view(&self) -> Seq<Seq<char>> {
        self.messages@.map_values(|m: String| m@)
    }
}

impl LoadFailures {
    /// No failure recorded yet.
    pub fn new() -> (r: LoadFailures)
        ensures
            r@ == Seq::<Seq<char>>::empty(),
    {
        LoadFailures { messages: Vec::new() }
    }

    /// Records why the next candidate could not be opened.
    pub fn record(&mut self, message: String)
        ensures
            final(self)@ == old(self)@.push(message@),
    {
        self.messages.push(message);
        assert(self@ =~= old(self)@.push(message@));
    }

    /// Number of failures recorded.
    pub fn len(&self) -> (r: usize)
        ensures
            r == self@.len(),
    {
        self.messages.len()
    }

    /// The error reported when no candidate could be opened: a heading line
    /// followed by one line per recorded failure.
    pub fn report(&self) -> (r: String)
        ensures
            r@ == "could not load Agon VDP firmware:\n"@ + join_lines(self@),
    {
        let mut joined = String::new();
        let n = self.messages.len();
        let mut i: usize = 0;
        while i < n
            invariant
                n == self.messages@.len(),
                i <= n,
                self@.len() == n,
                joined@ == join_lines(self@.take(i as int)),
            decreases n - i,
        {
            proof {
                reveal_strlit("\n");
                assert(self@.take(i + 1).drop_last() =~= self@.take(i as int));
                assert(self@.take(i + 1).last() == self@[i as int]);
            }
            if i > 0 {
                joined.append("\n");
            }
            joined.append(self.messages[i].as_str());
            i = i + 1;
        }
        assert(self@.take(n as int) =~= self@);
        let heading = String::from_str("could not load Agon VDP firmware:\n");
        heading.concat(joined.as_str())
    }
}

} // verus!
