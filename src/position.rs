use vstd::prelude::*;

verus! {

/// A request to create a position.
#[derive(Debug)]
pub struct ReqCreate {
    pub postname: String,
    pub level: String,
    pub sort: i64,
    pub remark: String,
}

/// A position as the services return it.
#[derive(Debug)]
pub struct RespInfo {
    pub postid: i64,
    pub postname: String,
    pub level: String,
    pub sort: i64,
    pub remark: String,
    pub create_time: i64,
    pub create_time_str: String,
}

/// One page of positions, with the total count on the first page.
#[derive(Debug)]
pub struct RespList {
    pub total: i64,
    pub list: Vec<RespInfo>,
}

/// A request to update a position.
#[derive(Debug)]
pub struct UpdateInfo {
    pub postid: i64,
    pub postname: String,
    pub level: String,
    pub sort: i64,
    pub remark: String,
    pub create_time: i64,
    pub create_time_str: String,
}

impl ReqCreate {
    /// The position name is required.
    pub fn validate(&self) -> (r: bool)
        ensures
            r == (self.postname@.len() > 0),
    {
        !self.postname.as_str().is_empty()
    }
}

impl UpdateInfo {
    /// The position name is required.
    pub fn validate(&self) -> (r: bool)
        ensures
            r == (self.postname@.len() > 0),
    {
        !self.postname.as_str().is_empty()
    }
}

} // verus!
