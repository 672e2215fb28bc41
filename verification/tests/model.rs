use choretle::overseer::id::TaskId;
use choretle::overseer::{Effort, Task, TaskData, TaskJson};

fn milk(effort: Effort) -> TaskData {
    TaskData { name: String::from("buy milk"), effort }
}

#[test]
fn efforts_have_lower_case_wire_names() {
    assert_eq!(Effort::Low.wire_name(), "low");
    assert_eq!(Effort::Medium.wire_name(), "medium");
    assert_eq!(Effort::High.wire_name(), "high");
}

#[test]
fn wire_names_are_read_back() {
    assert_eq!(Effort::from_wire_name("low"), Some(Effort::Low));
    assert_eq!(Effort::from_wire_name("medium"), Some(Effort::Medium));
    assert_eq!(Effort::from_wire_name("high"), Some(Effort::High));
    for effort in [Effort::Low, Effort::Medium, Effort::High] {
        assert_eq!(Effort::from_wire_name(effort.wire_name()), Some(effort));
    }
}

#[test]
fn other_words_name_no_effort() {
    assert_eq!(Effort::from_wire_name(""), None);
    assert_eq!(Effort::from_wire_name("Low"), None);
    assert_eq!(Effort::from_wire_name("HIGH"), None);
    assert_eq!(Effort::from_wire_name("lowest"), None);
    assert_eq!(Effort::from_wire_name(" medium"), None);
}

#[test]
fn task_data_compares_by_name_and_effort() {
    assert!(milk(Effort::Low) == milk(Effort::Low));
    assert!(milk(Effort::Low) != milk(Effort::High));
    assert!(milk(Effort::Low) != TaskData { name: String::from("buy bread"), effort: Effort::Low });
}

#[test]
fn a_clone_equals_its_source() {
    let task = Task { id: TaskId { bytes: [7u8; 12] }, data: milk(Effort::Medium) };
    let copy = task.clone();
    assert_eq!(copy, task);
    assert_eq!(copy.data.name, "buy milk");
    assert_eq!(copy.data.effort, Effort::Medium);
    assert_eq!(copy.id.bytes, [7u8; 12]);
}

#[test]
fn tasks_compare_by_identifier_and_payload() {
    let a = Task { id: TaskId { bytes: [1u8; 12] }, data: milk(Effort::Low) };
    let b = Task { id: TaskId { bytes: [2u8; 12] }, data: milk(Effort::Low) };
    let c = Task { id: TaskId { bytes: [1u8; 12] }, data: milk(Effort::High) };
    assert!(a != b);
    assert!(a != c);
    assert!(a == Task { id: TaskId { bytes: [1u8; 12] }, data: milk(Effort::Low) });
}

#[test]
fn wire_form_renders_the_identifier_as_text() {
    let bytes = [0x53, 0xe3, 0x7d, 0x08, 0x77, 0x6f, 0x72, 0x4e, 0x42, 0x00, 0x00, 0x0a];
    let json = TaskJson::from(Task { id: TaskId { bytes }, data: milk(Effort::High) });
    assert_eq!(json.id, "53e37d08776f724e4200000a");
    assert_eq!(json.data.name, "buy milk");
    assert_eq!(json.data.effort, Effort::High);
}

#[test]
fn wire_form_keeps_an_empty_name() {
    let json = TaskJson::from(
        Task { id: TaskId { bytes: [0u8; 12] }, data: TaskData { name: String::new(), effort: Effort::Low } },
    );
    assert_eq!(json.id, "000000000000000000000000");
    assert_eq!(json.data.name, "");
}

#[test]
fn a_payload_is_read_from_its_wire_words() {
    assert_eq!(TaskData::from_wire(String::from("buy milk"), "low"), Some(milk(Effort::Low)));
    assert_eq!(TaskData::from_wire(String::from("buy milk"), "medium"), Some(milk(Effort::Medium)));
    assert_eq!(TaskData::from_wire(String::from("buy milk"), "high"), Some(milk(Effort::High)));
    assert_eq!(TaskData::from_wire(String::from("buy milk"), "High"), None);
    assert_eq!(TaskData::from_wire(String::from("buy milk"), ""), None);
}
