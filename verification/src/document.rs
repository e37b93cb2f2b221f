//! A document: lines in order, and the name under which it is kept.

use vstd::prelude::*;
use vstd::utf8::{
    decode_utf8, encode_utf8, valid_utf8, encode_utf8_decode_utf8, encode_utf8_valid_utf8,
};
use crate::editor::Position;
use crate::lines::{
    lines_of, plain_line, lines_in, text_of, lemma_encode_concat, lemma_encode_line_feed,
    lemma_lines_hold_no_line_feed, lemma_lines_of_text_of, lemma_text_of_push,
};
use crate::row::{
    cluster_count, deleted, head, inserted, segmented, tail, Row, lemma_edits_bring_no_char,
};

verus! {

/// `lines` after a line break is put at line `y`, in front of the cluster
/// at offset `x`: line `y` keeps its head and a new line behind it takes
/// its tail. One line past the end, an empty line is added; further down,
/// nothing changes.
pub open spec fn line_broken(lines: Seq<Seq<char>>, x: int, y: int) -> Seq<Seq<char>> {
    if y > lines.len() {
        lines
    } else if y == lines.len() {
        lines.push(Seq::empty())
    } else {
        lines.update(y, head(lines[y], x)).insert(y + 1, tail(lines[y], x))
    }
}

/// `lines` after `c` is typed at line `y`, offset `x`: a line feed breaks
/// the line, another character goes into line `y`, or into a new last line
/// where `y` is one past the end.
pub open spec fn char_inserted(lines: Seq<Seq<char>>, x: int, y: int, c: char) -> Seq<Seq<char>> {
    if c == '\n' {
        line_broken(lines, x, y)
    } else if y == lines.len() {
        lines.push(seq![c])
    } else {
        lines.update(y, inserted(lines[y], x, c))
    }
}

/// `lines` after a forward delete at line `y`, offset `x`: at the end of a
/// line that is not the last, the next line is joined to it; elsewhere the
/// cluster at `x` goes, if there is one; past the last line nothing
/// changes.
pub open spec fn char_deleted(lines: Seq<Seq<char>>, x: int, y: int) -> Seq<Seq<char>> {
    if y >= lines.len() {
        lines
    } else if x == cluster_count(lines[y]) && y < lines.len() - 1 {
        lines.update(y, lines[y] + lines[y + 1]).remove(y + 1)
    } else {
        lines.update(y, deleted(lines[y], x))
    }
}

/// The lines of a text, in order, and the name of the file that they are
/// saved to, if there is one yet.
pub struct Document {
    rows: Vec<Row>,
    filename: Option<String>,
}

impl View for Document {
    type V = Seq<Seq<char>>;

    /// The contents of the lines, in order.
    closed spec fn view(&self) -> Seq<Seq<char>> {
        Seq::new(self.rows@.len(), |i: int| self.rows@[i]@)
    }
}

impl Default for Document {
    /// The document without lines and without a name.
    fn default() -> (document: Document)
        ensures
            document.wf(),
            document@ == Seq::<Seq<char>>::empty(),
            document.name() is None,
    {
        let document = Document { rows: Vec::new(), filename: None };
        assert(document@ =~= Seq::<Seq<char>>::empty());
        document
    }
}

impl Document {
    /// Each line is well formed and holds no line feed.
    pub closed spec fn wf(&self) -> bool {
        forall|i: int|
            0 <= i < self.rows@.len() ==> (#[trigger] self.rows@[i]).wf()
                && !self.rows@[i]@.contains('\n')
    }

    /// The name of the file that the document is saved to, if it has one.
    pub closed spec fn name(&self) -> Option<Seq<char>> {
        match self.filename {
            Some(name) => Some(name@),
            None => None,
        }
    }

    /// The number of lines fits a `usize`.
    pub proof fn lemma_len_fits(&self)
        ensures
            self@.len() <= usize::MAX,
    {
        assert(self@.len() == self.rows.len());
    }

    /// What is known of each line of a well-formed document.
    pub proof fn lemma_wf_lines(&self)
        requires
            self.wf(),
        ensures
            forall|i: int|
                0 <= i < self@.len() ==> segmented(#[trigger] self@[i]) && !self@[i].contains(
                    '\n',
                ),
    {
        assert forall|i: int| 0 <= i < self@.len() implies segmented(#[trigger] self@[i])
            && !self@[i].contains('\n') by {
            assert(self.rows@[i].wf());
        }
    }

    /// The document that a file named `filename` holds, given what reading
    /// the file came to: the lines of its text, or the error of the read.
    pub fn open(filename: &str, source: Result<String, std::io::Error>) -> (opened: Result<
        Document,
        std::io::Error,
    >)
        ensures
            source matches Ok(text) ==> (opened matches Ok(document) && document.wf() && document@
                == lines_of(text@) && document.name() == Some(filename@)),
            source matches Err(error) ==> (opened matches Err(passed) && passed == error),
    {
        match source {
            Ok(contents) => {
                let lines = lines_in(contents.as_str());
                let mut rows: Vec<Row> = Vec::new();
                let mut i: usize = 0;
                proof {
                    lemma_lines_hold_no_line_feed(contents@);
                }
                while i < lines.len()
                    invariant
                        i <= lines.len(),
                        rows@.len() == i,
                        forall|j: int|
                            0 <= j < i ==> (#[trigger] rows@[j]).wf() && rows@[j]@ == lines@[j]@,
                    decreases lines.len() - i,
                {
                    rows.push(Row::from(lines[i].as_str()));
                    i += 1;
                }
                let document = Document { rows, filename: Some(filename.to_owned()) };
                proof {
                    assert(document@ =~= lines_of(contents@));
                    assert forall|j: int| 0 <= j < document.rows@.len() implies (
                    #[trigger] document.rows@[j]).wf() && !document.rows@[j]@.contains('\n') by {
                        assert(document.rows@[j]@ == lines_of(contents@)[j]);
                    }
                }
                Ok(document)
            },
            Err(error) => Err(error),
        }
    }

    /// The name of the file that the document is saved to, if it has one.
    pub fn filename(&self) -> (name: Option<&String>)
        ensures
            self.name() is None ==> name is None,
            self.name() matches Some(text) ==> (name matches Some(string) && string@ == text),
    {
        self.filename.as_ref()
    }

    /// Gives the document the name `filename`, or none.
    pub fn set_filename(&mut self, filename: Option<String>)
        requires
            old(self).wf(),
        ensures
            final(self).wf(),
            final(self)@ == old(self)@,
            filename is None ==> final(self).name() is None,
            filename matches Some(string) ==> final(self).name() == Some(string@),
    {
        self.filename = filename;
    }

    /// The line at `index`, if there is one.
    pub fn row(&self, index: usize) -> (found: Option<&Row>)
        requires
            self.wf(),
        ensures
            index < self@.len() ==> (found matches Some(row) && row@ == self@[index as int]
                && row.wf()),
            index >= self@.len() ==> found is None,
    {
        if index < self.rows.len() {
            Some(&self.rows[index])
        } else {
            None
        }
    }

    /// Whether the document has no line.
    pub fn is_empty(&self) -> (empty: bool)
        ensures
            empty == (self@.len() == 0),
    {
        self.rows.is_empty()
    }

    /// The number of lines.
    pub fn len(&self) -> (n: usize)
        ensures
            n == self@.len(),
    {
        self.rows.len()
    }

    /// Breaks line `at.y` in front of the cluster at offset `at.x`.
    pub fn insert_new_line(&mut self, at: &Position)
        requires
            old(self).wf(),
        ensures
            final(self).wf(),
            final(self)@ == line_broken(old(self)@, at.x as int, at.y as int),
            final(self).name() == old(self).name(),
    {
        if at.y > self.rows.len() {
            return ;
        }
        if at.y == self.rows.len() {
            self.rows.push(Row::default());
            assert(self@ =~= line_broken(old(self)@, at.x as int, at.y as int));
            return ;
        }
        proof {
            lemma_edits_bring_no_char(self.rows@[at.y as int], at.x as int, ' ', '\n');
        }
        let new_line = self.rows[at.y].split(at.x);
        self.rows.insert(at.y + 1, new_line);
        assert(self@ =~= line_broken(old(self)@, at.x as int, at.y as int));
    }

    /// Types `c` at `at`: a line feed breaks the line there, any other
    /// character goes in front of the cluster at offset `at.x` of line
    /// `at.y`, or into a new last line where `at.y` is one past the end.
    pub fn insert(&mut self, at: &Position, c: char)
        requires
            old(self).wf(),
            c != '\n' ==> at.y <= old(self)@.len(),
        ensures
            final(self).wf(),
            final(self)@ == char_inserted(old(self)@, at.x as int, at.y as int, c),
            final(self).name() == old(self).name(),
    {
        if c == '\n' {
            self.insert_new_line(at);
            return ;
        }
        if at.y == self.rows.len() {
            let mut row = Row::default();
            row.insert(at.x, c);
            assert(row@ =~= seq![c]);
            self.rows.push(row);
            assert(self@ =~= char_inserted(old(self)@, at.x as int, at.y as int, c));
        } else {
            proof {
                lemma_edits_bring_no_char(self.rows@[at.y as int], at.x as int, c, '\n');
            }
            self.rows[at.y].insert(at.x, c);
            assert(self@ =~= char_inserted(old(self)@, at.x as int, at.y as int, c));
        }
    }

    /// Deletes forward at `at`: the cluster at offset `at.x` of line `at.y`,
    /// or, at the end of a line that is not the last, the break between it
    /// and the next line.
    pub fn delete(&mut self, at: &Position)
        requires
            old(self).wf(),
        ensures
            final(self).wf(),
            final(self)@ == char_deleted(old(self)@, at.x as int, at.y as int),
            final(self).name() == old(self).name(),
    {
        let len = self.rows.len();
        if at.y >= len {
            return ;
        } else if at.x == self.rows[at.y].len() && at.y < len - 1 {
            let next_row = self.rows.remove(at.y + 1);
            proof {
                vstd::seq_lib::lemma_seq_concat_contains_all_elements(
                    self.rows@[at.y as int]@,
                    next_row@,
                    '\n',
                );
            }
            self.rows[at.y].append(&next_row);
            assert(self@ =~= char_deleted(old(self)@, at.x as int, at.y as int));
        } else {
            proof {
                lemma_edits_bring_no_char(self.rows@[at.y as int], at.x as int, ' ', '\n');
            }
            self.rows[at.y].delete(at.x);
            assert(self@ =~= char_deleted(old(self)@, at.x as int, at.y as int));
        }
    }

    /// What saving writes to the file named `filename`: each line in UTF-8
    /// with a line feed behind it. Without a name there is nothing to
    /// write, and no file to write to.
    pub fn save(&self) -> (written: Option<Vec<u8>>)
        ensures
            self.name() is None ==> written is None,
            self.name() is Some ==> (written matches Some(bytes) && bytes@ == encode_utf8(
                text_of(self@),
            )),
    {
        if self.filename.is_none() {
            return None;
        }
        let mut bytes: Vec<u8> = Vec::new();
        let mut i: usize = 0;
        assert(self@.take(0) =~= Seq::<Seq<char>>::empty());
        while i < self.rows.len()
            invariant
                i <= self.rows@.len(),
                self@.len() == self.rows@.len(),
                bytes@ == encode_utf8(text_of(self@.take(i as int))),
            decreases self.rows.len() - i,
        {
            proof {
                let before = self@.take(i as int);
                let line = self@[i as int];
                assert(self@.take(i + 1) =~= before.push(line));
                lemma_text_of_push(before, line);
                lemma_encode_concat(text_of(before) + line, seq!['\n']);
                lemma_encode_concat(text_of(before), line);
                lemma_encode_line_feed();
            }
            let mut line = vstd::slice::slice_to_vec(self.rows[i].as_bytes());
            bytes.append(&mut line);
            bytes.push(10u8);
            i += 1;
        }
        assert(self@.take(i as int) =~= self@);
        Some(bytes)
    }
}

/// What saving writes is text in UTF-8, and that text, opened again, has
/// the lines of the document that was saved, provided that no line of it
/// ends in a carriage return: one that does comes back without it.
pub proof fn lemma_save_then_open(document: Document)
    requires
        document.wf(),
        forall|i: int|
            0 <= i < document@.len() && document@[i].len() > 0 ==> (#[trigger] document@[i]).last()
                != '\r',
    ensures
        valid_utf8(encode_utf8(text_of(document@))),
        lines_of(decode_utf8(encode_utf8(text_of(document@)))) == document@,
{
    encode_utf8_valid_utf8(text_of(document@));
    document.lemma_wf_lines();
    assert forall|i: int| 0 <= i < document@.len() implies plain_line(
        #[trigger] document@[i],
    ) by {}
    lemma_lines_of_text_of(document@);
    encode_utf8_decode_utf8(text_of(document@));
}

} // verus!
