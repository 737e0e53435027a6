use vstd::prelude::*;

verus! {

/// Why a line-addressed buffer operation was refused.
#[derive(Debug, PartialEq, Eq, Structural)]
pub enum BufferError {
    /// The line number lies outside the lines that the operation may address.
    IndexOutOfRange,
}

/// The contents of each line, in order.
pub open spec fn line_views(lines: Seq<String>) -> Seq<Seq<char>> {
    lines.map_values(|l: String| l@)
}

/// An ordered sequence of text lines, addressed from 1.
pub struct Buffer {
    lines: Vec<String>,
}

impl View for Buffer {
    type V = Seq<Seq<char>>;

    closed spec fn view(&self) -> Seq<Seq<char>> {
        line_views(self.lines@)
    }
}

impl Buffer {
    /// A buffer holding one empty line when `init` is set, no line otherwise.
    pub fn new(init: bool) -> (r: Self)
        ensures
            r@ == (if init { seq![Seq::<char>::empty()] } else { Seq::<Seq<char>>::empty() }),
    {
        let mut buffer = Self { lines: Vec::new() };
        if init {
            buffer.lines.push(String::new());
        }
        proof {
            if init {
                assert(buffer@ =~= seq![Seq::<char>::empty()]);
            } else {
                assert(buffer@ =~= Seq::<Seq<char>>::empty());
            }
        }
        buffer
    }

    pub fn is_empty(&self) -> (r: bool)
        ensures
            r == (self@.len() == 0),
    {
        self.lines.is_empty()
    }

    pub fn len(&self) -> (r: usize)
        ensures
            r == self@.len(),
    {
        self.lines.len()
    }

    /// The lines in order, from the first.
    pub fn iter(&self) -> (r: std::slice::Iter<'_, String>)
        ensures
            line_views(vstd::std_specs::slice::into_iter_elts(r)) == self@,
    {
        self.lines.iter()
    }

    /// Replaces the whole contents by `lines`; an empty list leaves one empty line.
    pub fn set(&mut self, lines: Vec<String>)
        ensures
            final(self)@ == (if lines@.len() == 0 {
                seq![Seq::<char>::empty()]
            } else {
                line_views(lines@)
            }),
    {
        self.lines = lines;
        if self.lines.len() == 0 {
            self.lines.push(String::new());
            assert(self@ =~= seq![Seq::<char>::empty()]);
        }
    }

    /// The line numbered `line_number`, if there is one.
    pub fn get(&self, line_number: usize) -> (r: Option<&String>)
        ensures
            r is Some <==> 1 <= line_number <= self@.len(),
            r is Some ==> r->0@ == self@[line_number - 1],
    {
        if 1 <= line_number && line_number <= self.lines.len() {
            Some(&self.lines[line_number - 1])
        } else {
            None
        }
    }

    /// Mutable access to the line numbered `line_number`, if there is one.
    pub fn get_mut(&mut self, line_number: usize) -> (r: Option<&mut String>)
        ensures
            r is Some <==> 1 <= line_number <= old(self)@.len(),
            r is Some ==> {
                &&& (*r->0)@ == old(self)@[line_number - 1]
                &&& final(self)@ == old(self)@.update(line_number - 1, (*final(r->0))@)
            },
            r is None ==> final(self)@ == old(self)@,
    {
        if 1 <= line_number && line_number <= self.lines.len() {
            let i = line_number - 1;
            Some(vec_slot(&mut self.lines, i))
        } else {
            None
        }
    }

    /// The last line, if any.
    pub fn last(&self) -> (r: Option<&String>)
        ensures
            r is Some <==> self@.len() > 0,
            r is Some ==> r->0@ == self@.last(),
    {
        if self.lines.len() == 0 {
            None
        } else {
            Some(&self.lines[self.lines.len() - 1])
        }
    }

    /// Mutable access to the last line, if any.
    pub fn last_mut(&mut self) -> (r: Option<&mut String>)
        ensures
            r is Some <==> old(self)@.len() > 0,
            r is Some ==> {
                &&& (*r->0)@ == old(self)@.last()
                &&& final(self)@ == old(self)@.update(old(self)@.len() - 1, (*final(r->0))@)
            },
            r is None ==> final(self)@ == old(self)@,
    {
        let n = self.lines.len();
        if n == 0 {
            None
        } else {
            Some(vec_slot(&mut self.lines, n - 1))
        }
    }

    /// Appends `line` after the last line.
    pub fn push(&mut self, line: String)
        ensures
            final(self)@ == old(self)@.push(line@),
    {
        self.lines.push(line);
        proof {
            assert(final(self)@ =~= old(self)@.push(line@));
        }
    }

    /// Takes off the last line, if any.
    pub fn pop(&mut self) -> (r: Option<String>)
        ensures
            r is Some <==> old(self)@.len() > 0,
            r is Some ==> r->0@ == old(self)@.last() && final(self)@ == old(self)@.drop_last(),
            r is None ==> final(self)@ == old(self)@,
    {
        let r = self.lines.pop();
        proof {
            if r is Some {
                assert(final(self)@ =~= old(self)@.drop_last());
            }
        }
        r
    }

    /// Inserts `line` so that it becomes line `line_number`; any line from 1 up to
    /// one past the last may be given.
    pub fn insert(&mut self, line_number: usize, line: String) -> (r: Result<(), BufferError>)
        ensures
            r is Ok <==> 1 <= line_number <= old(self)@.len() + 1,
            r is Ok ==> final(self)@ == old(self)@.insert(line_number - 1, line@),
            r is Err ==> final(self)@ == old(self)@ && r == Err::<(), BufferError>(BufferError::IndexOutOfRange),
    {
        if 1 <= line_number && line_number - 1 <= self.lines.len() {
            self.lines.insert(line_number - 1, line);
            proof {
                assert(final(self)@ =~= old(self)@.insert(line_number - 1, line@));
            }
            Ok(())
        } else {
            Err(BufferError::IndexOutOfRange)
        }
    }

    /// Takes out line `line_number` and returns it.
    pub fn remove(&mut self, line_number: usize) -> (r: Result<String, BufferError>)
        ensures
            r is Ok <==> 1 <= line_number <= old(self)@.len(),
            r is Ok ==> r->Ok_0@ == old(self)@[line_number - 1]
                && final(self)@ == old(self)@.remove(line_number - 1),
            r is Err ==> final(self)@ == old(self)@ && r->Err_0 == BufferError::IndexOutOfRange,
    {
        if 1 <= line_number && line_number <= self.lines.len() {
            let line = self.lines.remove(line_number - 1);
            proof {
                assert(final(self)@ =~= old(self)@.remove(line_number - 1));
            }
            Ok(line)
        } else {
            Err(BufferError::IndexOutOfRange)
        }
    }

    /// Puts `line` in place of line `line_number`.
    pub fn replace_line(&mut self, line_number: usize, line: String) -> (r: Result<(), BufferError>)
        ensures
            r is Ok <==> 1 <= line_number <= old(self)@.len(),
            r is Ok ==> final(self)@ == old(self)@.update(line_number - 1, line@),
            r is Err ==> final(self)@ == old(self)@ && r == Err::<(), BufferError>(BufferError::IndexOutOfRange),
    {
        if 1 <= line_number && line_number <= self.lines.len() {
            self.lines.set(line_number - 1, line);
            proof {
                assert(final(self)@ =~= old(self)@.update(line_number - 1, line@));
            }
            Ok(())
        } else {
            Err(BufferError::IndexOutOfRange)
        }
    }
}

/// Replacing line `n` and reading line `n` back address the same line: the
/// new text is read back, and every other line and the number of lines stay.
pub proof fn lemma_replace_then_get(before: Seq<Seq<char>>, n: int, line: Seq<char>)
    requires
        1 <= n <= before.len(),
    ensures
        before.update(n - 1, line).len() == before.len(),
        before.update(n - 1, line)[n - 1] == line,
        forall|m: int|
            1 <= m <= before.len() && m != n ==> #[trigger] before.update(n - 1, line)[m - 1]
                == before[m - 1],
{
}

fn vec_slot(v: &mut Vec<String>, i: usize) -> (r: &mut String)
    requires
        i < old(v)@.len(),
    ensures
        *r == old(v)@[i as int],
        final(v)@ == old(v)@.update(i as int, *final(r)),
{
    &mut v[i]
}

} // verus!
