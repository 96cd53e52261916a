//! Provider-specific model information: the known embedding dimensions of
//! embedding models.
use vstd::prelude::*;
use crate::text::{chars_eq, str_to_chars};

verus! {

/// The embedding dimensions known for `model`, if any.
pub open spec fn known_model_dimensions(model: Seq<char>) -> Option<usize> {
    if model == "text-embedding-3-small"@ {
        Some(1536)
    } else if model == "text-embedding-3-large"@ {
        Some(3072)
    } else if model == "text-embedding-ada-002"@ {
        Some(1536)
    } else if model == "embed-v4.0"@ {
        Some(1536)
    } else if model == "embed-english-v3.0"@ {
        Some(1024)
    } else if model == "embed-multilingual-v3.0"@ {
        Some(1024)
    } else if model == "embed-english-light-v3.0"@ {
        Some(384)
    } else if model == "embed-multilingual-light-v3.0"@ {
        Some(384)
    } else if model == "embed-english-v2.0"@ {
        Some(4096)
    } else if model == "embed-english-light-v2.0"@ {
        Some(1024)
    } else if model == "embed-multilingual-v2.0"@ {
        Some(768)
    } else {
        None
    }
}

/// The dimensions recorded for `model` in `entries`: those of the first
/// entry with that name.
pub open spec fn lookup_dimensions(entries: Seq<(Seq<char>, usize)>, model: Seq<char>) -> Option<usize>
    decreases entries.len(),
{
    if entries.len() == 0 {
        None
    } else if entries[0].0 == model {
        Some(entries[0].1)
    } else {
        lookup_dimensions(entries.drop_first(), model)
    }
}

/// Model metadata service: a table from model name to embedding dimensions.
pub struct ModelMetadataService {
    dimension_map: Vec<(Vec<char>, usize)>,
}

impl ModelMetadataService {
    /// The table's entries, as (model name, dimensions).
    pub closed spec fn entries(&self) -> Seq<(Seq<char>, usize)> {
        self.dimension_map@.map_values(|e: (Vec<char>, usize)| (e.0@, e.1))
    }

    /// The dimensions the service reports for `model`.
    pub open spec fn dimensions_of(&self, model: Seq<char>) -> Option<usize> {
        lookup_dimensions(self.entries(), model)
    }

    fn add(&mut self, model: &str, dims: usize)
        ensures
            final(self).entries() == old(self).entries().push((model@, dims)),
    {
        let ghost before = self.dimension_map@;
        self.dimension_map.push((str_to_chars(model), dims));
        assert(self.entries() =~= old(self).entries().push((model@, dims)));
    }

    /// Creates the service with the dimensions of the known OpenAI and
    /// Cohere embedding models.
    pub fn new() -> (s: Self)
        ensures
            forall|model: Seq<char>| #[trigger] s.dimensions_of(model) == known_model_dimensions(model),
    {
        let mut s = ModelMetadataService { dimension_map: Vec::new() };
        s.add("text-embedding-3-small", 1536);
        s.add("text-embedding-3-large", 3072);
        s.add("text-embedding-ada-002", 1536);
        s.add("embed-v4.0", 1536);
        s.add("embed-english-v3.0", 1024);
        s.add("embed-multilingual-v3.0", 1024);
        s.add("embed-english-light-v3.0", 384);
        s.add("embed-multilingual-light-v3.0", 384);
        s.add("embed-english-v2.0", 4096);
        s.add("embed-english-light-v2.0", 1024);
        s.add("embed-multilingual-v2.0", 768);
        proof {
            let e = s.entries();
            assert forall|model: Seq<char>| #[trigger] s.dimensions_of(model) == known_model_dimensions(model) by {
                reveal_with_fuel(lookup_dimensions, 12);
                assert(e.drop_first() =~= e.subrange(1, 11));
                assert(e.subrange(1, 11).drop_first() =~= e.subrange(2, 11));
                assert(e.subrange(2, 11).drop_first() =~= e.subrange(3, 11));
                assert(e.subrange(3, 11).drop_first() =~= e.subrange(4, 11));
                assert(e.subrange(4, 11).drop_first() =~= e.subrange(5, 11));
                assert(e.subrange(5, 11).drop_first() =~= e.subrange(6, 11));
                assert(e.subrange(6, 11).drop_first() =~= e.subrange(7, 11));
                assert(e.subrange(7, 11).drop_first() =~= e.subrange(8, 11));
                assert(e.subrange(8, 11).drop_first() =~= e.subrange(9, 11));
                assert(e.subrange(9, 11).drop_first() =~= e.subrange(10, 11));
                assert(e.subrange(10, 11).drop_first() =~= Seq::<(Seq<char>, usize)>::empty());
            }
        }
        s
    }

    /// The known dimensions for a model; `None` when the model is unknown.
    pub fn get_dimensions(&self, model: &str) -> (r: Option<usize>)
        ensures
            r == self.dimensions_of(model@),
    {
        let m = str_to_chars(model);
        let mut i: usize = 0;
        assert(self.entries().skip(0) =~= self.entries());
        while i < self.dimension_map.len()
            invariant
                i <= self.dimension_map.len(),
                m@ == model@,
                self.entries().len() == self.dimension_map.len(),
                lookup_dimensions(self.entries().skip(i as int), model@) == self.dimensions_of(model@),
            decreases self.dimension_map.len() - i,
        {
            assert(self.entries().skip(i as int).drop_first() =~= self.entries().skip(i + 1));
            if chars_eq(self.dimension_map[i].0.as_slice(), m.as_slice()) {
                return Some(self.dimension_map[i].1);
            }
            i = i + 1;
        }
        None
    }
}

} // verus!
