//! Choosing the input encoding from the input path.
//!
//! The encoding is a closed choice between the two supported ones, made
//! once per run from the path's extension; any other extension is a
//! configuration error, fatal before any record is read.

use vstd::prelude::*;

use crate::errors::FatalError;
use crate::text::str_eq;

verus! {

/// The two supported input encodings.
#[derive(PartialEq, Eq, Structural, Clone, Copy, Debug)]
pub enum SourceFormat {
    /// Comma-separated rows under a required header row.
    Csv,
    /// One independent JSON object per line.
    Ndjson,
}

/// `d` is the index of the dot that begins the path's extension: a dot in
/// the path's final component, not that component's first character, with
/// nothing but the extension's characters after it.
pub open spec fn ext_starts_at(s: Seq<char>, d: int) -> bool {
    &&& 0 < d < s.len()
    &&& s[d] == '.'
    &&& s[d - 1] != '/'
    &&& forall|j: int| d < j < s.len() ==> s[j] != '/' && s[j] != '.'
}

/// The path's extension: the characters after the last dot of its final
/// component, or `None` where that component has no dot, or only a leading
/// one. A trailing separator leaves no final component and so no
/// extension.
pub open spec fn extension_of(s: Seq<char>) -> Option<Seq<char>> {
    if exists|d: int| ext_starts_at(s, d) {
        Some(s.subrange((choose|d: int| ext_starts_at(s, d)) + 1, s.len() as int))
    } else {
        None
    }
}

/// At most one dot can begin the extension.
proof fn lemma_ext_start_unique(s: Seq<char>, d1: int, d2: int)
    requires
        ext_starts_at(s, d1),
        ext_starts_at(s, d2),
    ensures
        d1 == d2,
{
    if d1 < d2 {
        assert(s[d2] == '.');
    } else if d2 < d1 {
        assert(s[d1] == '.');
    }
}

/// Determine the input encoding from the path's extension: `csv` and
/// `ndjson` select their encodings; any other extension, or none, is a
/// fatal configuration error.
pub fn source_format_for_path(path: &str) -> (r: Result<SourceFormat, FatalError>)
    ensures
        match r {
            Ok(SourceFormat::Csv) => extension_of(path@) == Some("csv"@),
            Ok(SourceFormat::Ndjson) => extension_of(path@) == Some("ndjson"@),
            Err(e) => {
                &&& e is Configuration
                &&& extension_of(path@) != Some("csv"@)
                &&& extension_of(path@) != Some("ndjson"@)
            },
        },
{
    let n = path.unicode_len();
    let mut last_dot: Option<usize> = None;
    let mut i: usize = 0;
    while i < n
        invariant
            n == path@.len(),
            i <= n,
            match last_dot {
                Some(d) => {
                    &&& d < i
                    &&& path@[d as int] == '.'
                    &&& forall|j: int| d < j < i ==> path@[j] != '/' && path@[j] != '.'
                },
                None => forall|d: int| 0 <= d < i && path@[d] == '.' ==> exists|j: int|
                    d < j < i && (path@[j] == '/' || path@[j] == '.'),
            },
        decreases n - i,
    {
        let c = path.get_char(i);
        if c == '/' {
            last_dot = None;
        } else if c == '.' {
            last_dot = Some(i);
        }
        i += 1;
    }
    let d = match last_dot {
        None => {
            proof {
                if exists|c: int| ext_starts_at(path@, c) {
                    let c = choose|c: int| ext_starts_at(path@, c);
                    assert((path@[c] == '.') && 0 <= c < n);
                    assert(exists|j: int| c < j < n && (path@[j] == '/' || path@[j] == '.'));
                }
            }
            return Err(
                FatalError::Configuration(
                    "the input path has no file extension; use csv or ndjson".to_owned(),
                ),
            );
        },
        Some(d) => d,
    };
    if d == 0 || path.get_char(d - 1) == '/' {
        proof {
            if exists|c: int| ext_starts_at(path@, c) {
                let c = choose|c: int| ext_starts_at(path@, c);
                if c < d {
                    assert(path@[d as int] == '.');
                } else if c > d {
                    assert(path@[c] == '.');
                }
                assert(false);
            }
        }
        return Err(
            FatalError::Configuration(
                "the input path has no file extension; use csv or ndjson".to_owned(),
            ),
        );
    }
    proof {
        assert(ext_starts_at(path@, d as int));
        let c = choose|c: int| ext_starts_at(path@, c);
        lemma_ext_start_unique(path@, d as int, c);
    }
    let e = path.substring_char(d + 1, n);
    proof {
        reveal_strlit("csv");
        reveal_strlit("ndjson");
    }
    if str_eq(e, "csv") {
        Ok(SourceFormat::Csv)
    } else if str_eq(e, "ndjson") {
        Ok(SourceFormat::Ndjson)
    } else {
        Err(FatalError::Configuration("unsupported input file extension: ".to_owned().concat(e)))
    }
}

} // verus!
