use vstd::prelude::*;

verus! {

/// A request to create an employee.
#[derive(Debug)]
pub struct ReqCreate {
    pub realname: String,
    pub phone: String,
    pub department_id: i64,
    pub login_name: String,
    pub email: String,
    pub gender: u8,
    pub disabled_flag: u8,
    pub position_id: i64,
}

/// An employee as the services return it.
#[derive(Debug)]
pub struct RespInfo {
    pub employee_id: i64,
    pub realname: String,
    pub phone: String,
    pub department_id: i64,
    pub login_name: String,
    pub email: String,
    pub gender: u8,
    pub disabled_flag: u8,
    pub position_id: i64,
    pub create_time: i64,
    pub create_time_str: String,
}

/// One page of employees, with the total count on the first page.
#[derive(Debug)]
pub struct RespList {
    pub total: i64,
    pub list: Vec<RespInfo>,
}

/// A request to update an employee.
#[derive(Debug)]
pub struct UpdateInfo {
    pub employee_id: i64,
    pub realname: String,
    pub phone: String,
    pub department_id: i64,
    pub login_name: String,
    pub email: String,
    pub gender: u8,
    pub disabled_flag: u8,
    pub position_id: i64,
}

/// An employee as the selection list reads it.
#[derive(Debug, Clone)]
pub struct RespEmpInfo {
    pub employee_id: i64,
    pub realname: String,
    pub department_id: i64,
}

/// A department as the selection list reads it.
#[derive(Debug, Clone)]
pub struct RespDeptInfo {
    pub department_id: i64,
    pub department_name: String,
}

/// One entry of the employee selection list.
#[derive(Debug, Clone)]
pub struct RespSelectOption {
    pub employee_id: i64,
    pub realname: String,
    pub department_id: i64,
    pub department_name: String,
}

impl ReqCreate {
    /// Name, phone, login name and e-mail are required.
    pub fn validate(&self) -> (r: bool)
        ensures
            r == (self.realname@.len() > 0 && self.phone@.len() > 0 && self.login_name@.len() > 0
                && self.email@.len() > 0),
    {
        !self.realname.as_str().is_empty() && !self.phone.as_str().is_empty()
            && !self.login_name.as_str().is_empty() && !self.email.as_str().is_empty()
    }
}

impl UpdateInfo {
    /// Name, phone, login name and e-mail are required.
    pub fn validate(&self) -> (r: bool)
        ensures
            r == (self.realname@.len() > 0 && self.phone@.len() > 0 && self.login_name@.len() > 0
                && self.email@.len() > 0),
    {
        !self.realname.as_str().is_empty() && !self.phone.as_str().is_empty()
            && !self.login_name.as_str().is_empty() && !self.email.as_str().is_empty()
    }
}

/// The index of the last of the first `k` departments whose id is `id`: when
/// ids repeat, the last listed name stands.
pub open spec fn dept_index(depts: Seq<RespDeptInfo>, id: i64, k: int) -> Option<int>
    decreases k,
{
    if k <= 0 || k > depts.len() {
        None
    } else if depts[k - 1].department_id == id {
        Some(k - 1)
    } else {
        dept_index(depts, id, k - 1)
    }
}

/// The name of the department `id` in `depts`, if it is listed.
pub open spec fn dept_name(depts: Seq<RespDeptInfo>, id: i64) -> Option<Seq<char>> {
    match dept_index(depts, id, depts.len() as int) {
        Some(j) => Some(depts[j].department_name@),
        None => None,
    }
}

/// The view of a selection entry: employee id, name, department id and name.
pub open spec fn option_view(o: RespSelectOption) -> (i64, Seq<char>, i64, Seq<char>) {
    (o.employee_id, o.realname@, o.department_id, o.department_name@)
}

/// The selection entries for the first `k` employees: each employee whose
/// department is listed, in order, with that department's name.
pub open spec fn merged(emps: Seq<RespEmpInfo>, depts: Seq<RespDeptInfo>, k: int) -> Seq<
    (i64, Seq<char>, i64, Seq<char>),
>
    decreases k,
{
    if k <= 0 || k > emps.len() {
        Seq::empty()
    } else {
        let e = emps[k - 1];
        match dept_name(depts, e.department_id) {
            Some(n) => merged(emps, depts, k - 1).push(
                (e.employee_id, e.realname@, e.department_id, n),
            ),
            None => merged(emps, depts, k - 1),
        }
    }
}

/// The position in `depts` of the department `id`, the last one when ids repeat.
fn find_department(depts: &Vec<RespDeptInfo>, id: i64) -> (r: Option<usize>)
    ensures
        r matches Some(j) ==> j < depts@.len() && dept_index(depts@, id, depts@.len() as int) == Some(
            j as int,
        ),
        r is None ==> dept_index(depts@, id, depts@.len() as int) is None,
{
    let mut found: Option<usize> = None;
    let mut j: usize = 0;
    while j < depts.len()
        invariant
            j <= depts@.len(),
            found matches Some(f) ==> f < j && dept_index(depts@, id, j as int) == Some(f as int),
            found is None ==> dept_index(depts@, id, j as int) is None,
        decreases depts@.len() - j,
    {
        if depts[j].department_id == id {
            found = Some(j);
        }
        j += 1;
    }
    found
}

/// Joins employees with the department they belong to, for the selection list:
/// employees whose department is not listed are left out.
pub fn merge_employee_department(
    employee_list: Vec<RespEmpInfo>,
    department_list: Vec<RespDeptInfo>,
) -> (r: Vec<RespSelectOption>)
    ensures
        r@.len() == merged(employee_list@, department_list@, employee_list@.len() as int).len(),
        forall|j: int|
            0 <= j < r@.len() ==> option_view(#[trigger] r@[j]) == merged(
                employee_list@,
                department_list@,
                employee_list@.len() as int,
            )[j],
{
    let mut result: Vec<RespSelectOption> = Vec::new();
    let mut i: usize = 0;
    while i < employee_list.len()
        invariant
            i <= employee_list@.len(),
            result@.len() == merged(employee_list@, department_list@, i as int).len(),
            forall|j: int|
                0 <= j < result@.len() ==> option_view(#[trigger] result@[j]) == merged(
                    employee_list@,
                    department_list@,
                    i as int,
                )[j],
        decreases employee_list@.len() - i,
    {
        let employee = &employee_list[i];
        match find_department(&department_list, employee.department_id) {
            Some(d) => {
                let info = RespSelectOption {
                    employee_id: employee.employee_id,
                    realname: employee.realname.clone(),
                    department_id: employee.department_id,
                    department_name: department_list[d].department_name.clone(),
                };
                result.push(info);
            },
            None => {},
        }
        i += 1;
    }
    result
}

} // verus!
