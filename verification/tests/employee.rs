use crab_rocket::employee::{Employee, NewEmployee};

#[test]
fn an_empty_employee_holds_only_a_name() {
    let employee = Employee::new_empty("Jo");
    assert_eq!(employee.employee_id, 0);
    assert_eq!(employee.employee_name, "Jo");
    assert_eq!(
        employee,
        Employee {
            employee_id: 0,
            employee_name: "Jo".to_string(),
            first_name: None,
            last_name: None,
            gender: None,
            date_of_birth: None,
            hire_date: None,
            email: None,
            phone_number: None,
            department_id: None,
            job_title: None,
            salary: None,
            manager_id: None,
            address: None,
            city: None,
            state: None,
            postal_code: None,
            valid: None,
            last_update: None,
        }
    );
}

#[test]
fn an_empty_new_employee_holds_only_a_name() {
    let employee = NewEmployee::new_empty("");
    assert_eq!(
        employee,
        NewEmployee {
            employee_name: String::new(),
            first_name: None,
            last_name: None,
            gender: None,
            date_of_birth: None,
            hire_date: None,
            email: None,
            phone_number: None,
            department_id: None,
            job_title: None,
            salary: None,
            manager_id: None,
            address: None,
            city: None,
            state: None,
            postal_code: None,
            valid: None,
        }
    );
    assert_eq!(NewEmployee::new_empty("Kim").employee_name, "Kim");
}
