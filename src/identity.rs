use vstd::prelude::*;
use crate::decimal::{decimal, append_decimal};

verus! {

/// The size of every chunk but possibly the last: 5 MiB.
pub const CHUNK_SIZE: u64 = 5 * 1024 * 1024;

/// The number of chunks a file of `total` bytes is sent in: one more than the
/// number of whole chunks it holds, so at least one even for an empty file.
pub open spec fn chunk_count_of(total: nat) -> nat {
    total / (CHUNK_SIZE as nat) + 1
}

/// `<total>-<filename>`: the name under which the server groups the chunks of
/// one file.
pub open spec fn identifier_text(total: nat, filename: Seq<char>) -> Seq<char> {
    decimal(total) + seq!['-'] + filename
}

/// What identifies a file to the server, as plain values.
pub struct IdentityModel {
    pub filename: Seq<char>,
    pub total_size: nat,
    pub identifier: Seq<char>,
    pub chunk_count: nat,
}

pub open spec fn identity_wf(m: IdentityModel) -> bool {
    &&& m.total_size <= u64::MAX
    &&& m.identifier == identifier_text(m.total_size, m.filename)
    &&& m.chunk_count == chunk_count_of(m.total_size)
}

/// The identity of a file to upload, derived once from its name and size.
pub struct FileIdentity {
    filename: String,
    total_size: u64,
    identifier: String,
    chunk_count: u64,
}

impl View for FileIdentity {
    type V = IdentityModel;

    closed spec fn view(&self) -> IdentityModel {
        IdentityModel {
            filename: self.filename@,
            total_size: self.total_size as nat,
            identifier: self.identifier@,
            chunk_count: self.chunk_count as nat,
        }
    }
}

impl FileIdentity {
    pub open spec fn wf(&self) -> bool {
        identity_wf(self@)
    }

    /// The identity of a file named `filename` (its base name) that holds
    /// `total_size` bytes.
    pub fn new(filename: String, total_size: u64) -> (r: Self)
        ensures
            r.wf(),
            r@.filename == filename@,
            r@.total_size == total_size,
            r@.identifier == identifier_text(total_size as nat, filename@),
            r@.chunk_count == chunk_count_of(total_size as nat),
            r@.chunk_count >= 1,
    {
        proof {
            reveal_strlit("-");
        }
        let mut identifier = String::new();
        append_decimal(&mut identifier, total_size);
        identifier.append("-");
        identifier.append(filename.as_str());
        assert(identifier@ =~= identifier_text(total_size as nat, filename@));
        assert(total_size / CHUNK_SIZE < 0xffff_ffff_ffff_ffff) by (nonlinear_arith)
            requires
                CHUNK_SIZE == 5242880,
        ;
        let chunk_count = total_size / CHUNK_SIZE + 1;
        FileIdentity { filename, total_size, identifier, chunk_count }
    }

    pub fn filename(&self) -> (r: &str)
        ensures
            r@ == self@.filename,
    {
        self.filename.as_str()
    }

    pub fn total_size(&self) -> (r: u64)
        ensures
            r == self@.total_size,
    {
        self.total_size
    }

    pub fn identifier(&self) -> (r: &str)
        ensures
            r@ == self@.identifier,
    {
        self.identifier.as_str()
    }

    pub fn chunk_count(&self) -> (r: u64)
        ensures
            r == self@.chunk_count,
    {
        self.chunk_count
    }
}

/// The chunks cover the file: all chunks but the last are full, and the last
/// holds what remains, fewer than a chunk's bytes (none when the size is a
/// multiple of the chunk size). There is always at least one chunk.
pub proof fn lemma_chunks_cover_file(total: nat)
    ensures
        chunk_count_of(total) >= 1,
        chunk_count_of(total) == total / (CHUNK_SIZE as nat) + 1,
        (chunk_count_of(total) - 1) * (CHUNK_SIZE as nat) <= total,
        total < chunk_count_of(total) * (CHUNK_SIZE as nat),
{
    let c = CHUNK_SIZE as nat;
    let q = total / c;
    assert(q * c <= total < (q + 1) * c) by (nonlinear_arith)
        requires
            c > 0,
            q == total / c,
    ;
}

} // verus!
