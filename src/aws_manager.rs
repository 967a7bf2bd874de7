use crate::chunk::part_count;
use crate::errors::AWSError;
use crate::text::{decimal, find_char, first_index, i64_value, parse_i64, push_decimal};
use vstd::prelude::*;

verus! {

/// Nominal size of one uploaded part, and the largest file copied in one go.
pub const CHUNK_SIZE: u64 = 1024 * 1024 * 10;

/// Most parts the bucket accepts for one object.
pub const MAX_CHUNKS: u64 = 10000;

/// The bucket service's client handle; opaque here.
#[verifier::external_type_specification]
#[verifier::external_body]
pub struct ExS3Client(aws_sdk_s3::Client);

/// What the bucket knows of one stored object: the modification time
/// recorded in its metadata at write time, and its size.
#[derive(Debug)]
pub struct ObjectInfo {
    pub mtime: Option<i64>,
    pub size: Option<u64>,
}

/// One uploaded part of a multipart upload.
pub struct CompletedPartInfo {
    pub part_number: i32,
    pub e_tag: String,
}

/// A multipart upload in progress: the id the bucket gave it and the parts
/// uploaded so far, in the order they were recorded.
pub struct UploadSession {
    upload_id: String,
    parts: Vec<CompletedPartInfo>,
}

/// The bucket and the client that reaches it.
pub struct AWS {
    client: aws_sdk_s3::Client,
    bucket: String,
}

/// A recorded modification time as stored in object metadata: the text
/// before any fractional part, read as an `i64`.
pub open spec fn stored_mtime(s: Seq<char>) -> Option<i64> {
    i64_value(s.take(first_index(s, '.')))
}

/// Part numbers of a session, in recorded order.
pub open spec fn part_numbers(parts: Seq<CompletedPartInfo>) -> Seq<int> {
    Seq::new(parts.len(), |i: int| parts[i].part_number as int)
}

/// The parts are numbered `1, 2, ..., n` in order: none missing, none
/// repeated, none out of place.
pub open spec fn parts_complete(numbers: Seq<int>, n: int) -> bool {
    &&& numbers.len() == n
    &&& forall|i: int| 0 <= i < numbers.len() ==> #[trigger] numbers[i] == i + 1
}

/// Text of the error for a refused request with an HTTP status.
pub open spec fn status_detail(status: u16) -> Seq<char> {
    "HttpStatus: "@ + decimal(status as nat)
}

impl AWS {
    /// Bucket handle over a client configured elsewhere.
    pub fn new(client: aws_sdk_s3::Client, bucket: &str) -> (r: Self)
        ensures
            r.spec_bucket() == bucket@,
    {
        AWS { client, bucket: String::from_str(bucket) }
    }

    pub closed spec fn spec_bucket(&self) -> Seq<char> {
        self.bucket@
    }

    /// Name of the bucket.
    pub fn bucket(&self) -> (r: &str)
        ensures
            r@ == self.spec_bucket(),
    {
        self.bucket.as_str()
    }

    /// Client that reaches the bucket.
    pub fn client(&self) -> &aws_sdk_s3::Client {
        &self.client
    }

    /// Reads what a stored object's metadata and length say: the `mtime`
    /// metadata value, if there is one, with any fractional part dropped;
    /// and the reported content length.
    pub fn construct_object_info(mtime: Option<&str>, content_length: Option<i64>) -> (r:
        ObjectInfo)
        ensures
            r.mtime == match mtime {
                Some(s) => stored_mtime(s@),
                None => None,
            },
            r.size == match content_length {
                Some(x) => Some(x as u64),
                None => None,
            },
    {
        let parsed = match mtime {
            Some(s) => {
                let cut = find_char(s, '.');
                let whole = s.substring_char(0, cut);
                assert(whole@ =~= s@.take(first_index(s@, '.')));
                parse_i64(whole)
            },
            None => None,
        };
        let size = match content_length {
            Some(x) => Some(#[verifier::truncate] (x as u64)),
            None => None,
        };
        ObjectInfo { mtime: parsed, size }
    }

    /// Outcome of a refused metadata request: a "not found" status means
    /// there is no such object; any other status, or a failure without a
    /// status (`detail` is its text), is an error.
    pub fn construct_object_info_error(status: Option<u16>, detail: String) -> (r: Result<
        Option<ObjectInfo>,
        AWSError,
    >)
        ensures
            status == Some(404u16) ==> r matches Ok(None),
            status is Some && status.unwrap() != 404 ==> (r matches Err(e) && e.0@ == status_detail(
                status.unwrap(),
            )),
            status is None ==> (r matches Err(e) && e.0@ == detail@),
    {
        match status {
            Some(s) => {
                if s == 404 {
                    Ok(None)
                } else {
                    let mut text = String::from_str("HttpStatus: ");
                    push_decimal(&mut text, s as u64);
                    Err(AWSError(text))
                }
            },
            None => Err(AWSError(detail)),
        }
    }

    /// Rejects, before any transfer starts, a file that is empty or that
    /// would need more than `MAX_CHUNKS` parts of `CHUNK_SIZE` bytes.
    pub fn check_for_multipart_upload(file_size: u64) -> (r: Result<(), AWSError>)
        ensures
            r is Ok <==> file_size > 0 && part_count(file_size as int, CHUNK_SIZE as int)
                <= MAX_CHUNKS,
            file_size == 0 ==> (r matches Err(e) && e.0@ == "file size is zero"@),
            file_size > 0 && part_count(file_size as int, CHUNK_SIZE as int) > MAX_CHUNKS ==> (r
                matches Err(e) && e.0@ == "chunk count exceeded maximum"@),
    {
        match check_part_capacity(file_size, CHUNK_SIZE, MAX_CHUNKS) {
            Ok(_) => Ok(()),
            Err(e) => Err(e),
        }
    }

    /// Nominal size of one part.
    pub fn get_chunk_size() -> (r: u64)
        ensures
            r == CHUNK_SIZE,
    {
        CHUNK_SIZE
    }
}

/// Number of parts of `chunk_size` bytes that `file_size` bytes need, when
/// the file is non-empty and that number is at most `max_chunks`. Counts as
/// the planner does.
pub fn check_part_capacity(file_size: u64, chunk_size: u64, max_chunks: u64) -> (r: Result<
    u64,
    AWSError,
>)
    requires
        chunk_size > 0,
    ensures
        r matches Ok(n) ==> n == part_count(file_size as int, chunk_size as int),
        r is Ok <==> file_size > 0 && part_count(file_size as int, chunk_size as int)
            <= max_chunks,
        file_size == 0 ==> (r matches Err(e) && e.0@ == "file size is zero"@),
        file_size > 0 && part_count(file_size as int, chunk_size as int) > max_chunks ==> (r matches Err(
            e,
        ) && e.0@ == "chunk count exceeded maximum"@),
{
    if file_size == 0 {
        return Err(AWSError::from_str("file size is zero"));
    }
    let mut chunk_count = file_size / chunk_size;
    let size_of_last_chunk = file_size % chunk_size;
    proof {
        lemma_count_by_remainder(file_size as int, chunk_size as int);
        vstd::arithmetic::div_mod::lemma_fundamental_div_mod(file_size as int, chunk_size as int);
    }
    if size_of_last_chunk != 0 {
        assert(chunk_count < u64::MAX) by (nonlinear_arith)
            requires
                file_size == chunk_size * chunk_count + size_of_last_chunk,
                size_of_last_chunk >= 1,
                chunk_size >= 1,
                file_size <= u64::MAX,
        ;
        chunk_count = chunk_count + 1;
    }
    if file_size == 0 {
        Err(AWSError::from_str("file size is zero"))
    } else if chunk_count > max_chunks {
        Err(AWSError::from_str("chunk count exceeded maximum"))
    } else {
        Ok(chunk_count)
    }
}

/// Counting whole parts and adding one for a remainder gives the planner's
/// count.
proof fn lemma_count_by_remainder(size: int, chunk_size: int)
    requires
        size > 0,
        chunk_size > 0,
    ensures
        part_count(size, chunk_size) == size / chunk_size + if size % chunk_size == 0 {
            0int
        } else {
            1int
        },
{
    let q = size / chunk_size;
    let r = size % chunk_size;
    vstd::arithmetic::div_mod::lemma_fundamental_div_mod(size, chunk_size);
    vstd::arithmetic::div_mod::lemma_mod_pos_bound(size, chunk_size);
    let x = size + chunk_size - 1;
    if r == 0 {
        assert(x == q * chunk_size + (chunk_size - 1)) by (nonlinear_arith)
            requires
                size == chunk_size * q + r,
                r == 0,
                x == size + chunk_size - 1,
        ;
        vstd::arithmetic::div_mod::lemma_fundamental_div_mod_converse(x, chunk_size, q, chunk_size - 1);
    } else {
        assert(x == (q + 1) * chunk_size + (r - 1)) by (nonlinear_arith)
            requires
                size == chunk_size * q + r,
                x == size + chunk_size - 1,
        ;
        vstd::arithmetic::div_mod::lemma_fundamental_div_mod_converse(x, chunk_size, q + 1, r - 1);
    }
}

impl UploadSession {
    pub closed spec fn spec_upload_id(&self) -> Seq<char> {
        self.upload_id@
    }

    pub closed spec fn spec_parts(&self) -> Seq<CompletedPartInfo> {
        self.parts@
    }

    /// Starts a session from the id the bucket answered with; an answer
    /// without an id is an error.
    pub fn open(upload_id: Option<String>) -> (r: Result<Self, AWSError>)
        ensures
            upload_id matches Some(id) ==> (r matches Ok(s) && s.spec_upload_id() == id@
                && s.spec_parts().len() == 0),
            upload_id is None ==> (r matches Err(e) && e.0@ == "upload id not retrieved"@),
    {
        match upload_id {
            Some(id) => Ok(UploadSession { upload_id: id, parts: Vec::new() }),
            None => Err(AWSError::from_str("upload id not retrieved")),
        }
    }

    /// Id of the upload.
    pub fn upload_id(&self) -> (r: &str)
        ensures
            r@ == self.spec_upload_id(),
    {
        self.upload_id.as_str()
    }

    /// Parts recorded so far.
    pub fn parts(&self) -> (r: &Vec<CompletedPartInfo>)
        ensures
            r@ == self.spec_parts(),
    {
        &self.parts
    }

    /// Records an uploaded part with the integrity tag the bucket gave it
    /// (empty when it gave none).
    pub fn record_part(&mut self, part_number: i32, e_tag: Option<String>)
        ensures
            final(self).spec_upload_id() == old(self).spec_upload_id(),
            final(self).spec_parts().len() == old(self).spec_parts().len() + 1,
            final(self).spec_parts().take(old(self).spec_parts().len() as int) == old(
                self,
            ).spec_parts(),
            final(self).spec_parts().last().part_number == part_number,
            final(self).spec_parts().last().e_tag@ == match e_tag {
                Some(t) => t@,
                None => Seq::<char>::empty(),
            },
    {
        let tag = match e_tag {
            Some(t) => t,
            None => String::new(),
        };
        self.parts.push(CompletedPartInfo { part_number, e_tag: tag });
        assert(self.parts@.take(old(self).parts@.len() as int) =~= old(self).parts@);
    }

    /// Checks, before the bucket is asked to assemble the object, that the
    /// recorded parts are exactly `1..=expected` in order. Parts out of
    /// order, repeated or missing are refused.
    pub fn check_complete(&self, expected: u64) -> (r: Result<(), AWSError>)
        ensures
            r is Ok <==> parts_complete(part_numbers(self.spec_parts()), expected as int),
            r matches Err(e) ==> e.0@ == "parts missing or out of order"@,
    {
        let n = self.parts.len();
        if n as u64 != expected {
            return Err(AWSError::from_str("parts missing or out of order"));
        }
        let mut i: usize = 0;
        while i < n
            invariant
                n == self.parts@.len(),
                i <= n,
                forall|j: int| 0 <= j < i ==> self.parts@[j].part_number == j + 1,
            decreases n - i,
        {
            let p = self.parts[i].part_number;
            if p < 1 || (p - 1) as usize != i {
                assert(part_numbers(self.parts@)[i as int] != i + 1);
                return Err(AWSError::from_str("parts missing or out of order"));
            }
            i = i + 1;
        }
        assert forall|j: int| 0 <= j < n implies #[trigger] part_numbers(self.parts@)[j] == j
            + 1 by {
            assert(self.parts@[j].part_number == j + 1);
        }
        Ok(())
    }
}

} // verus!
