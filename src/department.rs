use vstd::prelude::*;

use crate::tree::{build_tree, children_of, descends, forest_of, NodeRow, TreeNode};

verus! {

/// A request to create a department.
#[derive(Debug)]
pub struct ReqCreate {
    pub deptname: String,
    pub sort: i32,
    pub managerid: i64,
    pub parentid: i64,
}

/// A department as the tree listing reads it.
#[derive(Debug, Clone)]
pub struct TreeDeptResult {
    pub department_id: i64,
    pub department_name: String,
    pub parent_id: i64,
}

/// A department as the services return it.
#[derive(Debug)]
pub struct RespInfo {
    pub department_id: i64,
    pub department_name: String,
    pub manager_id: i64,
    pub parent_id: i64,
    pub sort: i32,
    pub create_time: i64,
    pub create_time_str: String,
}

/// One page of departments, with the total count on the first page.
#[derive(Debug)]
pub struct RespList {
    pub total: i64,
    pub list: Vec<RespInfo>,
}

/// A request to update a department.
#[derive(Debug)]
pub struct UpdateInfo {
    pub deptid: i64,
    pub deptname: String,
    pub sort: i32,
    pub managerid: i64,
    pub parentid: i64,
    pub create_time: i64,
    pub create_time_str: String,
}

impl ReqCreate {
    /// The department name is required.
    pub fn validate(&self) -> (r: bool)
        ensures
            r == (self.deptname@.len() > 0),
    {
        !self.deptname.as_str().is_empty()
    }
}

impl UpdateInfo {
    /// The department name is required.
    pub fn validate(&self) -> (r: bool)
        ensures
            r == (self.deptname@.len() > 0),
    {
        !self.deptname.as_str().is_empty()
    }
}

/// The tree rows of a department listing: id, name and parent id.
pub open spec fn dept_rows(list: Seq<TreeDeptResult>) -> Seq<NodeRow> {
    Seq::new(
        list.len(),
        |i: int| (list[i].department_id, list[i].department_name, Some(list[i].parent_id)),
    )
}

/// The department tree below the root parent id 0 (see `build_tree`).
pub fn tree_list(list: Vec<TreeDeptResult>) -> (r: Option<Vec<TreeNode>>)
    requires
        !descends(dept_rows(list@), 0, (list@.len() + 1) as nat),
    ensures
        r is None <==> children_of(dept_rows(list@), 0).len() == 0,
        r matches Some(t) ==> forest_of(t@, dept_rows(list@), 0, list@.len()),
{
    let mut rows: Vec<NodeRow> = Vec::new();
    let mut i: usize = 0;
    while i < list.len()
        invariant
            i <= list@.len(),
            rows@ =~= dept_rows(list@).take(i as int),
        decreases list@.len() - i,
    {
        let d = &list[i];
        rows.push((d.department_id, d.department_name.clone(), Some(d.parent_id)));
        i += 1;
    }
    assert(rows@ =~= dept_rows(list@));
    build_tree(rows)
}

} // verus!
