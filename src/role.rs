use vstd::prelude::*;

use crate::tree::{build_tree, children_of, descends, forest_of, NodeRow, TreeNode};

verus! {

/// A request to create a role.
#[derive(Debug)]
pub struct ReqCreate {
    pub rolename: String,
    pub rolecode: String,
    pub remark: String,
}

/// A role as the services return it.
#[derive(Debug)]
pub struct RespInfo {
    pub roleid: i64,
    pub rolename: String,
    pub rolecode: String,
    pub remark: String,
    pub create_time: i64,
    pub create_time_str: String,
}

/// One page of roles, with the total count on the first page.
#[derive(Debug)]
pub struct RespList {
    pub total: i64,
    pub list: Vec<RespInfo>,
}

/// A request to update a role.
#[derive(Debug)]
pub struct UpdateInfo {
    pub roleid: i64,
    pub rolename: String,
    pub rolecode: String,
    pub remark: String,
    pub create_time: i64,
    pub create_time_str: String,
}

/// An entry of the role selection list.
#[derive(Debug)]
pub struct RespSelect {
    pub roleid: i64,
    pub rolename: String,
}

/// An employee holding a role.
#[derive(Debug)]
pub struct RespEmpInfo {
    pub employee_id: i64,
    pub realname: String,
    pub phone: String,
    pub department_id: i64,
    pub login_name: String,
    pub email: String,
    pub gender: u8,
    pub disabled_flag: u8,
    pub position_id: i64,
    pub create_time: i64,
    pub create_time_str: String,
}

/// One page of the employees holding a role.
#[derive(Debug)]
pub struct RespEmpList {
    pub total: i64,
    pub list: Vec<RespEmpInfo>,
}

/// A menu entry as the menu tree reads it.
#[derive(Debug, Clone)]
pub struct RespMenuSelect {
    pub menu_id: i64,
    pub menu_name: String,
    pub parent_id: i64,
}

/// A menu a role may access.
#[derive(Debug, Clone, Copy)]
pub struct RespRoleMenu {
    pub role_id: i64,
    pub menu_id: i64,
}

impl ReqCreate {
    /// The role name and the role code are required.
    pub fn validate(&self) -> (r: bool)
        ensures
            r == (self.rolename@.len() > 0 && self.rolecode@.len() > 0),
    {
        !self.rolename.as_str().is_empty() && !self.rolecode.as_str().is_empty()
    }
}

impl UpdateInfo {
    /// The role name and the role code are required.
    pub fn validate(&self) -> (r: bool)
        ensures
            r == (self.rolename@.len() > 0 && self.rolecode@.len() > 0),
    {
        !self.rolename.as_str().is_empty() && !self.rolecode.as_str().is_empty()
    }
}

/// Every character of `s` is an ASCII decimal digit.
pub open spec fn all_digits(s: Seq<char>) -> bool {
    forall|i: int| 0 <= i < s.len() ==> '0' <= #[trigger] s[i] <= '9'
}

/// The value of a run of decimal digits.
pub open spec fn digits_value(s: Seq<char>) -> int
    decreases s.len(),
{
    if s.len() == 0 {
        0
    } else {
        digits_value(s.drop_last()) * 10 + ((s.last() as int) - ('0' as int))
    }
}

/// What `i64`'s `FromStr` reads: an optional `+` or `-`, then one or more ASCII
/// digits, whose value must fit an `i64`; anything else is an error.
pub open spec fn parsed_i64(s: Seq<char>) -> Option<i64> {
    let negative = s.len() > 0 && s[0] == '-';
    let body = if s.len() > 0 && (s[0] == '-' || s[0] == '+') {
        s.skip(1)
    } else {
        s
    };
    let v = if negative {
        -digits_value(body)
    } else {
        digits_value(body)
    };
    if body.len() == 0 || !all_digits(body) || v < i64::MIN || v > i64::MAX {
        None
    } else {
        Some(v as i64)
    }
}

/// Relies on `str::parse::<i64>` (`FromStr` for `i64`), whose documented
/// grammar is an optional sign and decimal digits, with overflow an error.
#[verifier::external_body]
fn parse_i64(s: &str) -> (r: Option<i64>)
    ensures
        r == parsed_i64(s@),
{
    s.parse::<i64>().ok()
}

/// Reads an integer query parameter: absent stays absent, and text that is not
/// an integer reads as 0.
pub fn convert_string_to_i64(opt_str: Option<&String>) -> (r: Option<i64>)
    ensures
        opt_str is None ==> r is None,
        opt_str matches Some(s) ==> r == Some(
            match parsed_i64(s@) {
                Some(v) => v,
                None => 0i64,
            },
        ),
{
    match opt_str {
        Some(s) => match parse_i64(s.as_str()) {
            Some(v) => Some(v),
            None => Some(0),
        },
        None => None,
    }
}

/// The tree rows of a menu listing: id, name and parent id.
pub open spec fn menu_rows(list: Seq<RespMenuSelect>) -> Seq<NodeRow> {
    Seq::new(list.len(), |i: int| (list[i].menu_id, list[i].menu_name, Some(list[i].parent_id)))
}

/// The menu tree below the root parent id 0 (see `build_tree`).
pub fn menu_list(list: Vec<RespMenuSelect>) -> (r: Option<Vec<TreeNode>>)
    requires
        !descends(menu_rows(list@), 0, (list@.len() + 1) as nat),
    ensures
        r is None <==> children_of(menu_rows(list@), 0).len() == 0,
        r matches Some(t) ==> forest_of(t@, menu_rows(list@), 0, list@.len()),
{
    let mut rows: Vec<NodeRow> = Vec::new();
    let mut i: usize = 0;
    while i < list.len()
        invariant
            i <= list@.len(),
            rows@ =~= menu_rows(list@).take(i as int),
        decreases list@.len() - i,
    {
        let m = &list[i];
        rows.push((m.menu_id, m.menu_name.clone(), Some(m.parent_id)));
        i += 1;
    }
    assert(rows@ =~= menu_rows(list@));
    build_tree(rows)
}

} // verus!
