//! Employees: the record and its creation shape.

use crate::time::Timestamp;
use vstd::prelude::*;
use vstd::string::StringExecFns;

verus! {

/// An employee as the storage holds it.
#[derive(Debug, PartialEq, Eq)]
pub struct Employee {
    pub employee_id: i32,
    pub employee_name: String,
    pub first_name: Option<String>,
    pub last_name: Option<String>,
    pub gender: Option<String>,
    pub date_of_birth: Option<Timestamp>,
    pub hire_date: Option<Timestamp>,
    pub email: Option<String>,
    pub phone_number: Option<String>,
    pub department_id: Option<i32>,
    pub job_title: Option<String>,
    pub salary: Option<i32>,
    pub manager_id: Option<i32>,
    pub address: Option<String>,
    pub city: Option<String>,
    pub state: Option<String>,
    pub postal_code: Option<String>,
    pub valid: Option<bool>,
    pub last_update: Option<Timestamp>,
}

impl Employee {
    /// Whether the employee holds nothing but a name: the identifier is 0 and
    /// every other field is empty.
    pub open spec fn is_empty_but_for(self, name: Seq<char>) -> bool {
        &&& self.employee_id == 0
        &&& self.employee_name@ == name
        &&& self.first_name is None
        &&& self.last_name is None
        &&& self.gender is None
        &&& self.date_of_birth is None
        &&& self.hire_date is None
        &&& self.email is None
        &&& self.phone_number is None
        &&& self.department_id is None
        &&& self.job_title is None
        &&& self.salary is None
        &&& self.manager_id is None
        &&& self.address is None
        &&& self.city is None
        &&& self.state is None
        &&& self.postal_code is None
        &&& self.valid is None
        &&& self.last_update is None
    }

    /// An employee of whom only the name is known.
    pub fn new_empty(name: &'static str) -> (r: Self)
        ensures
            r.is_empty_but_for(name@),
    {
        Employee {
            employee_id: 0,
            employee_name: String::from_str(name),
            first_name: None,
            last_name: None,
            gender: None,
            date_of_birth: None,
            hire_date: None,
            email: None,
            phone_number: None,
            department_id: None,
            job_title: None,
            salary: None,
            manager_id: None,
            address: None,
            city: None,
            state: None,
            postal_code: None,
            valid: None,
            last_update: None,
        }
    }
}

/// What a creation brings: an employee without an identifier and without the
/// time of the last change.
#[derive(Debug, PartialEq, Eq)]
pub struct NewEmployee {
    pub employee_name: String,
    pub first_name: Option<String>,
    pub last_name: Option<String>,
    pub gender: Option<String>,
    pub date_of_birth: Option<Timestamp>,
    pub hire_date: Option<Timestamp>,
    pub email: Option<String>,
    pub phone_number: Option<String>,
    pub department_id: Option<i32>,
    pub job_title: Option<String>,
    pub salary: Option<i32>,
    pub manager_id: Option<i32>,
    pub address: Option<String>,
    pub city: Option<String>,
    pub state: Option<String>,
    pub postal_code: Option<String>,
    pub valid: Option<bool>,
}

impl NewEmployee {
    /// Whether the employee holds nothing but a name.
    pub open spec fn is_empty_but_for(self, name: Seq<char>) -> bool {
        &&& self.employee_name@ == name
        &&& self.first_name is None
        &&& self.last_name is None
        &&& self.gender is None
        &&& self.date_of_birth is None
        &&& self.hire_date is None
        &&& self.email is None
        &&& self.phone_number is None
        &&& self.department_id is None
        &&& self.job_title is None
        &&& self.salary is None
        &&& self.manager_id is None
        &&& self.address is None
        &&& self.city is None
        &&& self.state is None
        &&& self.postal_code is None
        &&& self.valid is None
    }

    /// An employee yet to be stored, of whom only the name is known.
    pub fn new_empty(name: &'static str) -> (r: Self)
        ensures
            r.is_empty_but_for(name@),
    {
        NewEmployee {
            employee_name: String::from_str(name),
            first_name: None,
            last_name: None,
            gender: None,
            date_of_birth: None,
            hire_date: None,
            email: None,
            phone_number: None,
            department_id: None,
            job_title: None,
            salary: None,
            manager_id: None,
            address: None,
            city: None,
            state: None,
            postal_code: None,
            valid: None,
        }
    }
}

} // verus!
