use crate::errors::OneDriveError;
use crate::onedrive_model::{Root, Value};
use crate::text::{decimal, find_char, first_index, push_decimal};
use vstd::prelude::*;

verus! {

/// Where the change feed starts when no cursor has been saved yet: its root,
/// so that the first run sees every existing item as changed.
pub const DELTA_ROOT_URL: &'static str = "https://graph.microsoft.com/v1.0/me/drive/root/delta";

/// The drive's HTTP client handle; opaque here.
#[verifier::external_type_specification]
#[verifier::external_body]
pub struct ExHttpClient(reqwest::Client);

/// A changed drive item, ready for reconciliation.
#[derive(Debug)]
pub struct ItemInfo {
    /// Path of the item below the drive root, without a leading `/`.
    pub filename: String,
    pub item_id: String,
    pub size: u64,
    /// Last modification, in seconds since the Unix epoch.
    pub mtime: i64,
    pub content_type: Option<String>,
    /// The item is a file (not a folder).
    pub file: bool,
}

/// The cursor of the change feed and when it was captured (seconds since
/// the Unix epoch).
pub struct DataDeltaLink {
    pub data_delta_link: String,
    pub date_time: i64,
}

/// The drive, the token to reach it with, and the change-feed cursor.
pub struct OneDrive {
    client: reqwest::Client,
    access_token: String,
    delta_link_path: String,
    delta_link: DataDeltaLink,
}

/// The folder part of a parent path: what follows its first `:`.
pub open spec fn folder_of(path: Seq<char>) -> Option<Seq<char>> {
    if first_index(path, ':') < path.len() {
        Some(path.skip(first_index(path, ':') + 1))
    } else {
        None
    }
}

/// `s` without its leading `/` characters.
pub open spec fn trim_leading_slashes(s: Seq<char>) -> Seq<char>
    decreases s.len(),
{
    if s.len() > 0 && s[0] == '/' {
        trim_leading_slashes(s.drop_first())
    } else {
        s
    }
}

/// Path of an item below the drive root from its folder and its name.
pub open spec fn item_filename(folder: Seq<char>, name: Seq<char>) -> Seq<char> {
    trim_leading_slashes(folder + "/"@ + name)
}

/// A feed record names a live item with a location: the records that take
/// part in reconciliation.
pub open spec fn is_live_record(v: Value) -> bool {
    v.parent_reference.path is Some && v.deleted is None
}

/// A record carries everything an item needs: a parent path with a folder
/// part, a name and a modification time.
pub open spec fn is_complete_record(v: Value) -> bool {
    &&& v.parent_reference.path matches Some(p) && folder_of(p@) is Some
    &&& v.name is Some
    &&& v.last_modified_date_time is Some
}

/// `i` is the item that the complete record `v` describes.
pub open spec fn describes(i: ItemInfo, v: Value) -> bool {
    &&& i.filename@ == item_filename(
        folder_of(v.parent_reference.path.unwrap()@).unwrap(),
        v.name.unwrap()@,
    )
    &&& i.item_id@ == v.id@
    &&& i.size == v.size
    &&& i.mtime == v.last_modified_date_time.unwrap()
    &&& i.file == v.file is Some
    &&& i.content_type == match v.file {
        Some(f) => f.mime_type,
        None => None,
    }
}

/// The live records of a page, in feed order.
pub open spec fn live_records(vals: Seq<Value>) -> Seq<Value>
    decreases vals.len(),
{
    if vals.len() == 0 {
        Seq::empty()
    } else if is_live_record(vals.last()) {
        live_records(vals.drop_last()).push(vals.last())
    } else {
        live_records(vals.drop_last())
    }
}

/// The records a page carries (none when it has no record list).
pub open spec fn page_records(page: Root) -> Seq<Value> {
    match page.value {
        Some(v) => v@,
        None => Seq::empty(),
    }
}

/// Every live record of the page is complete.
pub open spec fn page_well_formed(page: Root) -> bool {
    forall|j: int|
        0 <= j < live_records(page_records(page)).len() ==> is_complete_record(
            #[trigger] live_records(page_records(page))[j],
        )
}

/// The value of a `Range` header asking for bytes `from..=to`.
pub open spec fn range_spec(from: u64, to: u64) -> Seq<char> {
    "bytes="@ + decimal(from as nat) + "-"@ + decimal(to as nat)
}

proof fn lemma_trim_skip(s: Seq<char>, k: int)
    requires
        0 <= k <= s.len(),
        forall|j: int| 0 <= j < k ==> s[j] == '/',
        k == s.len() || s[k] != '/',
    ensures
        trim_leading_slashes(s) == s.skip(k),
    decreases k,
{
    if k == 0 {
        assert(s.skip(0) =~= s);
    } else {
        assert(s.drop_first().skip(k - 1) =~= s.skip(k));
        assert forall|j: int| 0 <= j < k - 1 implies s.drop_first()[j] == '/' by {
            assert(s.drop_first()[j] == s[j + 1]);
        }
        lemma_trim_skip(s.drop_first(), k - 1);
    }
}

/// `s` without its leading `/` characters.
fn trim_slashes(s: &str) -> (r: &str)
    ensures
        r@ == trim_leading_slashes(s@),
{
    let n = s.unicode_len();
    let mut k: usize = 0;
    while k < n && s.get_char(k) == '/'
        invariant
            k <= n,
            n == s@.len(),
            forall|j: int| 0 <= j < k ==> s@[j] == '/',
        decreases n - k,
    {
        k = k + 1;
    }
    proof {
        lemma_trim_skip(s@, k as int);
    }
    let r = s.substring_char(k, n);
    assert(r@ =~= s@.skip(k as int));
    r
}

proof fn lemma_live_records_step(vals: Seq<Value>, i: int)
    requires
        0 <= i < vals.len(),
    ensures
        live_records(vals.take(i + 1)) == if is_live_record(vals[i]) {
            live_records(vals.take(i)).push(vals[i])
        } else {
            live_records(vals.take(i))
        },
{
    assert(vals.take(i + 1).drop_last() =~= vals.take(i));
    assert(vals.take(i + 1).last() == vals[i]);
}

/// The `Range` header value for bytes `from..=to` of a file.
pub fn range_header(from: u64, to: u64) -> (r: String)
    ensures
        r@ == range_spec(from, to),
{
    let mut s = String::from_str("bytes=");
    push_decimal(&mut s, from);
    s.append("-");
    push_decimal(&mut s, to);
    s
}

impl OneDrive {
    pub closed spec fn spec_access_token(&self) -> Seq<char> {
        self.access_token@
    }

    pub closed spec fn spec_delta_link_path(&self) -> Seq<char> {
        self.delta_link_path@
    }

    /// The cursor captured by the last fully read change feed.
    pub closed spec fn spec_delta_link(&self) -> Seq<char> {
        self.delta_link.data_delta_link@
    }

    /// When that cursor was captured.
    pub closed spec fn spec_delta_link_time(&self) -> i64 {
        self.delta_link.date_time
    }

    /// Drive handle over a client set up elsewhere (no redirects followed,
    /// bounded timeouts), with no token and no captured cursor yet.
    pub fn new(client: reqwest::Client, delta_link_path: &str) -> (r: Self)
        ensures
            r.spec_access_token().len() == 0,
            r.spec_delta_link_path() == delta_link_path@,
            r.spec_delta_link().len() == 0,
    {
        OneDrive {
            client,
            access_token: String::new(),
            delta_link_path: String::from_str(delta_link_path),
            delta_link: DataDeltaLink { data_delta_link: String::new(), date_time: 0 },
        }
    }

    /// Sets the access token used from now on.
    pub fn set_access_token(&mut self, access_token: &str)
        ensures
            final(self).spec_access_token() == access_token@,
            final(self).spec_delta_link_path() == old(self).spec_delta_link_path(),
            final(self).spec_delta_link() == old(self).spec_delta_link(),
    {
        self.access_token = String::from_str(access_token);
    }

    /// Token to send with requests.
    pub fn access_token(&self) -> (r: &str)
        ensures
            r@ == self.spec_access_token(),
    {
        self.access_token.as_str()
    }

    /// Where the cursor is persisted.
    pub fn delta_link_path(&self) -> (r: &str)
        ensures
            r@ == self.spec_delta_link_path(),
    {
        self.delta_link_path.as_str()
    }

    /// Client that reaches the drive.
    pub fn client(&self) -> &reqwest::Client {
        &self.client
    }

    /// The cursor captured by the last fully read change feed, ready to be
    /// persisted.
    pub fn delta_link(&self) -> (r: &DataDeltaLink)
        ensures
            r.data_delta_link@ == self.spec_delta_link(),
            r.date_time == self.spec_delta_link_time(),
    {
        &self.delta_link
    }

    /// A change feed was read to its end since this handle was made, so there
    /// is a cursor worth persisting.
    pub fn has_cursor(&self) -> (r: bool)
        ensures
            r == (self.spec_delta_link().len() > 0),
    {
        self.delta_link.data_delta_link.unicode_len() > 0
    }

    /// Where this run's change feed starts: the saved cursor, or the feed's
    /// root when none was saved.
    pub fn delta_start_url(saved: Option<String>) -> (r: String)
        ensures
            saved matches Some(c) ==> r@ == c@,
            saved is None ==> r@ == DELTA_ROOT_URL@,
    {
        match saved {
            Some(c) => c,
            None => String::from_str(DELTA_ROOT_URL),
        }
    }

    /// Keeps the cursor that ended the change feed, captured at `now`.
    pub fn store_delta_link(&mut self, delta_link: String, now: i64)
        ensures
            final(self).spec_delta_link() == delta_link@,
            final(self).spec_delta_link_time() == now,
            final(self).spec_access_token() == old(self).spec_access_token(),
            final(self).spec_delta_link_path() == old(self).spec_delta_link_path(),
    {
        self.delta_link = DataDeltaLink { data_delta_link: delta_link, date_time: now };
    }

    /// The item a feed record describes. A record without a folder part in
    /// its parent path, without a name or without a modification time is a
    /// protocol violation.
    pub fn item_info(value: &Value) -> (r: Result<ItemInfo, OneDriveError>)
        ensures
            r is Ok <==> is_complete_record(*value),
            r matches Ok(i) ==> describes(i, *value),
    {
        let path = match &value.parent_reference.path {
            Some(p) => p.as_str(),
            None => {
                return Err(OneDriveError(String::from_str("change record without a path")));
            },
        };
        let colon = find_char(path, ':');
        let n = path.unicode_len();
        if colon >= n {
            return Err(OneDriveError(String::from_str("change record path without a folder")));
        }
        let name = match &value.name {
            Some(nm) => nm.as_str(),
            None => {
                return Err(OneDriveError(String::from_str("change record without a name")));
            },
        };
        let mtime = match value.last_modified_date_time {
            Some(t) => t,
            None => {
                return Err(
                    OneDriveError(String::from_str("change record without a modification time")),
                );
            },
        };
        let folder = path.substring_char(colon + 1, n);
        assert(folder@ =~= folder_of(path@).unwrap());
        let mut joined = String::from_str(folder);
        joined.append("/");
        joined.append(name);
        let filename = String::from_str(trim_slashes(joined.as_str()));
        let (file, content_type) = match &value.file {
            Some(f) => (
                true,
                match &f.mime_type {
                    Some(m) => Some(m.clone()),
                    None => None,
                },
            ),
            None => (false, None),
        };
        Ok(ItemInfo { filename, item_id: value.id.clone(), size: value.size, mtime, content_type, file })
    }

    /// Takes in one page of the change feed: appends the items of its live
    /// records to `items`, then says how the feed goes on. A link to a next
    /// page is handed back (`Some`); a cursor ends the feed (`None`) and is
    /// kept for persisting, as captured at `now`. A page with neither, or with
    /// a live record that lacks what an item needs, fails the feed, and then
    /// no cursor is kept.
    pub fn absorb_delta_page(&mut self, page: Root, items: &mut Vec<ItemInfo>, now: i64) -> (r: Result<
        Option<String>,
        OneDriveError,
    >)
        ensures
            r is Ok <==> page_well_formed(page) && (page._odata_next_link is Some
                || page._odata_delta_link is Some),
            page_well_formed(page) && page._odata_next_link is None && page._odata_delta_link is None
                ==> (r matches Err(e) && e.0@ == "no next or delta link returned"@),
            r is Ok ==> final(items)@.len() == old(items)@.len() + live_records(
                page_records(page),
            ).len(),
            r is Ok ==> final(items)@.take(old(items)@.len() as int) == old(items)@,
            r is Ok ==> forall|j: int|
                0 <= j < live_records(page_records(page)).len() ==> describes(
                    #[trigger] final(items)@[old(items)@.len() + j],
                    live_records(page_records(page))[j],
                ),
            page._odata_next_link is Some && r is Ok ==> r == Ok::<Option<String>, OneDriveError>(
                page._odata_next_link,
            ),
            page._odata_next_link is None && r is Ok ==> r == Ok::<
                Option<String>,
                OneDriveError,
            >(None) && final(self).spec_delta_link() == page._odata_delta_link.unwrap()@
                && final(self).spec_delta_link_time() == now,
            !(page._odata_next_link is None && r is Ok) ==> final(self).spec_delta_link() == old(
                self,
            ).spec_delta_link() && final(self).spec_delta_link_time() == old(
                self,
            ).spec_delta_link_time(),
            final(self).spec_access_token() == old(self).spec_access_token(),
            final(self).spec_delta_link_path() == old(self).spec_delta_link_path(),
    {
        let empty: Vec<Value> = Vec::new();
        let vals: &Vec<Value> = match &page.value {
            Some(v) => v,
            None => &empty,
        };
        assert(vals@ == page_records(page));
        let ghost start = items@;
        let mut i: usize = 0;
        while i < vals.len()
            invariant
                i <= vals@.len(),
                vals@ == page_records(page),
                items@.len() == start.len() + live_records(vals@.take(i as int)).len(),
                items@.take(start.len() as int) == start,
                forall|j: int|
                    0 <= j < live_records(vals@.take(i as int)).len() ==> is_complete_record(
                        #[trigger] live_records(vals@.take(i as int))[j],
                    ),
                forall|j: int|
                    0 <= j < live_records(vals@.take(i as int)).len() ==> describes(
                        #[trigger] items@[start.len() + j],
                        live_records(vals@.take(i as int))[j],
                    ),
            decreases vals@.len() - i,
        {
            let v = &vals[i];
            proof {
                lemma_live_records_step(vals@, i as int);
            }
            if v.parent_reference.path.is_some() && v.deleted.is_none() {
                match OneDrive::item_info(v) {
                    Ok(item) => {
                        let ghost before = items@;
                        items.push(item);
                        proof {
                            assert(items@.take(start.len() as int) =~= start) by {
                                assert forall|j: int| 0 <= j < start.len() implies items@[j]
                                    == start[j] by {
                                    assert(items@[j] == before[j]);
                                    assert(before.take(start.len() as int)[j] == before[j]);
                                }
                            }
                        }
                    },
                    Err(e) => {
                        proof {
                            let live = live_records(vals@.take(i + 1));
                            let k = live.len() - 1;
                            assert(live[k] == *v);
                            lemma_live_records_prefix(vals@, i + 1);
                            assert(!page_well_formed(page));
                        }
                        return Err(e);
                    },
                }
            }
            i = i + 1;
        }
        assert(vals@.take(vals@.len() as int) =~= vals@);
        match page._odata_next_link {
            Some(next) => Ok(Some(next)),
            None => match page._odata_delta_link {
                Some(link) => {
                    self.store_delta_link(link, now);
                    Ok(None)
                },
                None => Err(OneDriveError(String::from_str("no next or delta link returned"))),
            },
        }
    }

    /// The direct download address the drive answers with: a redirect whose
    /// `Location` header holds it. Any other answer (`status` is its text),
    /// or a redirect without the header (`headers` is their text), is an
    /// error.
    pub fn download_url_from_redirect(
        redirected: bool,
        status: &str,
        location: Option<String>,
        headers: &str,
    ) -> (r: Result<String, OneDriveError>)
        ensures
            !redirected ==> (r matches Err(e) && e.0@ == "get download url status: "@ + status@),
            redirected && location is Some ==> (r matches Ok(u) && u@ == location.unwrap()@),
            redirected && location is None ==> (r matches Err(e) && e.0@
                == "get Location header value: "@ + headers@),
    {
        if !redirected {
            let mut m = String::from_str("get download url status: ");
            m.append(status);
            return Err(OneDriveError(m));
        }
        match location {
            Some(l) => Ok(l),
            None => {
                let mut m = String::from_str("get Location header value: ");
                m.append(headers);
                Err(OneDriveError(m))
            },
        }
    }
}

/// Live records of a longer run start with those of a shorter one.
proof fn lemma_live_records_prefix(vals: Seq<Value>, i: int)
    requires
        0 <= i <= vals.len(),
    ensures
        live_records(vals.take(i)).len() <= live_records(vals).len(),
        forall|j: int|
            0 <= j < live_records(vals.take(i)).len() ==> #[trigger] live_records(vals.take(i))[j]
                == live_records(vals)[j],
    decreases vals.len() - i,
{
    if i == vals.len() {
        assert(vals.take(i) =~= vals);
    } else {
        lemma_live_records_step(vals, i);
        lemma_live_records_prefix(vals, i + 1);
        let short = live_records(vals.take(i));
        let long = live_records(vals.take(i + 1));
        assert forall|j: int| 0 <= j < short.len() implies #[trigger] short[j] == live_records(
            vals,
        )[j] by {
            assert(short[j] == long[j]);
        }
    }
}

} // verus!
