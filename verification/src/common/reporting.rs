//! What the preprocessor knows of its output: the files it read, and where each
//! part of the output came from.

use vstd::prelude::*;

verus! {

/// A stretch of the processed output that came from one line of one file.
#[derive(Clone, Debug, PartialEq, Eq)]
pub struct Mapping {
    /// Offset in the processed output at which the stretch starts.
    pub processed_start: usize,
    /// Offset in the processed output at which the stretch ends (exclusive).
    pub processed_end: usize,
    /// Path of the file that the stretch came from.
    pub path: String,
    /// Line of that file, counted from 1.
    pub line: usize,
    /// Whether the stretch was produced by a macro.
    pub was_macro: bool,
}

impl Mapping {
    /// Whether the stretch holds the offset.
    pub open spec fn covers(self, offset: usize) -> bool {
        self.processed_start <= offset < self.processed_end
    }

    /// Whether the stretch holds the offset.
    pub fn holds(&self, offset: usize) -> (b: bool)
        ensures
            b == self.covers(offset),
    {
        self.processed_start <= offset && offset < self.processed_end
    }
}

/// The output of the preprocessor, as far as its origin goes.
#[derive(Clone, Debug, PartialEq, Eq)]
pub struct Processed {
    /// Paths of the files that were read, in the order they were first met.
    pub sources: Vec<String>,
    /// The stretches of the output, in the order they were produced.
    pub mappings: Vec<Mapping>,
    /// The output itself.
    pub output: String,
}

impl Processed {
    /// Whether `i` is the index of the mapping that answers for `offset`: the
    /// last one that holds it.
    pub open spec fn answers(self, offset: usize, i: int) -> bool {
        &&& 0 <= i < self.mappings@.len()
        &&& self.mappings@[i].covers(offset)
        &&& forall|j: int| i < j < self.mappings@.len() ==> !self.mappings@[j].covers(offset)
    }

    /// The index of the mapping that answers for `offset`, if any mapping
    /// holds it.
    pub open spec fn mapping_index(self, offset: usize) -> Option<int> {
        if exists|i: int| self.answers(offset, i) {
            Some(choose|i: int| self.answers(offset, i))
        } else {
            None
        }
    }

    /// At most one mapping answers for an offset.
    pub proof fn answer_is_unique(self, offset: usize, i: int)
        requires
            self.answers(offset, i),
        ensures
            self.mapping_index(offset) == Some(i),
    {
        let k = choose|k: int| self.answers(offset, k);
        if k < i {
            assert(!self.mappings@[i].covers(offset));
        } else if i < k {
            assert(!self.mappings@[k].covers(offset));
        }
    }

    /// The mapping that answers for `offset`: the last one whose stretch
    /// holds it, or `None` where no stretch does.
    pub fn mapping(&self, offset: usize) -> (r: Option<&Mapping>)
        ensures
            match self.mapping_index(offset) {
                Some(i) => r == Some(&self.mappings@[i]),
                None => r is None,
            },
    {
        let mut i: usize = self.mappings.len();
        while i > 0
            invariant
                i <= self.mappings.len(),
                forall|j: int| i <= j < self.mappings@.len() ==> !self.mappings@[j].covers(offset),
            decreases i,
        {
            i -= 1;
            if self.mappings[i].holds(offset) {
                proof {
                    self.answer_is_unique(offset, i as int);
                }
                return Some(&self.mappings[i]);
            }
        }
        None
    }

    /// The output as text.
    pub fn as_str(&self) -> (r: &str)
        ensures
            r@ == self.output@,
    {
        self.output.as_str()
    }

    /// The part of the output between two byte offsets, as `str::get` of the
    /// standard library gives it: the text whose bytes are the bytes of the
    /// output from `start` up to `end`, where `start` is not behind `end`,
    /// `end` is not behind the end of the output, and neither falls inside a
    /// character; `None` otherwise.
    #[verifier::external_body]
    pub(crate) fn slice(&self, start: usize, end: usize) -> (r: Option<&str>)
        ensures
            r is Some <==> Self::sliceable(self.output@, start, end),
            r matches Some(part) ==> vstd::utf8::encode_utf8(part@) == self.bytes(start, end),
    {
        self.output.get(start..end)
    }

    /// The bytes of the output from `start` up to `end`.
    pub open spec fn bytes(self, start: usize, end: usize) -> Seq<u8> {
        vstd::utf8::encode_utf8(self.output@).subrange(start as int, end as int)
    }

    /// Whether the two byte offsets cut a part out of the text.
    pub open spec fn sliceable(text: Seq<char>, start: usize, end: usize) -> bool {
        let bytes = vstd::utf8::encode_utf8(text);
        &&& start <= end <= bytes.len()
        &&& vstd::utf8::is_char_boundary(bytes, start as int)
        &&& vstd::utf8::is_char_boundary(bytes, end as int)
    }

    /// The paths of the files that were read.
    pub fn sources(&self) -> (r: &Vec<String>)
        ensures
            r == &self.sources,
    {
        &self.sources
    }
}

} // verus!
