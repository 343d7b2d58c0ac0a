use vstd::prelude::*;

verus! {

#[derive(PartialEq, Eq, Structural, Debug, Clone, Copy)]
pub enum ContentError {
    /// The content store sent a chunk with a negative offset.
    NegativeOffset,
}

/// The file position at which a streamed chunk must be written; a negative
/// offset fails the fetch before anything is written.
pub fn chunk_position(offset: i64) -> (r: Result<u64, ContentError>)
    ensures
        offset < 0 <==> r == Err::<u64, ContentError>(ContentError::NegativeOffset),
        offset >= 0 ==> r == Ok::<u64, ContentError>(offset as u64),
{
    if offset < 0 {
        Err(ContentError::NegativeOffset)
    } else {
        Ok(offset as u64)
    }
}

/// The scratch file name of a layer: its digest with each ':' replaced by '-'.
pub open spec fn safe_file_name(digest: Seq<char>) -> Seq<char> {
    digest.map_values(|c: char| if c == ':' { '-' } else { c })
}

/// Turns a content digest into a file name that every platform accepts.
pub fn layer_file_name(digest: &String) -> (r: String)
    ensures
        r@ == safe_file_name(digest@),
{
    let s = digest.as_str();
    let n = s.unicode_len();
    let mut out = String::new();
    let mut i: usize = 0;
    while i < n
        invariant
            i <= n,
            n == digest@.len(),
            s@ == digest@,
            out@ == safe_file_name(digest@.subrange(0, i as int)),
        decreases n - i,
    {
        let c = s.get_char(i);
        proof {
            reveal_strlit("-");
        }
        assert(digest@.subrange(0, i + 1) =~= digest@.subrange(0, i as int).push(c));
        if c == ':' {
            out.append("-");
        } else {
            let piece = s.substring_char(i, i + 1);
            out.append(piece);
        }
        assert(out@ =~= safe_file_name(digest@.subrange(0, i + 1)));
        i = i + 1;
    }
    assert(digest@.subrange(0, n as int) =~= digest@);
    out
}

} // verus!
