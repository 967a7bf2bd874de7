use vstd::prelude::*;

verus! {

/// Marker of a deleted drive item.
pub struct Deleted {}

/// File facet of a drive item.
pub struct File {
    pub mime_type: Option<String>,
}

/// Where a drive item sits: `"/drive/root:"` followed by the folder path.
pub struct ParentReference {
    pub path: Option<String>,
}

/// One record of the change feed.
pub struct Value {
    pub id: String,
    /// Last modification, in seconds since the Unix epoch.
    pub last_modified_date_time: Option<i64>,
    pub name: Option<String>,
    pub size: u64,
    pub parent_reference: ParentReference,
    pub deleted: Option<Deleted>,
    pub file: Option<File>,
}

/// One page of the change feed: its records, and either the link to the
/// next page or the cursor for the next run.
pub struct Root {
    pub _odata_context: Option<String>,
    pub _odata_next_link: Option<String>,
    pub _odata_delta_link: Option<String>,
    pub value: Option<Vec<Value>>,
}

} // verus!
