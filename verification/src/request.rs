use vstd::prelude::*;

verus! {

/// A key name, a value of some shape, and the database to work in.
pub struct CommonValueArgs<T> {
    pub name: String,
    pub value: T,
    pub db: u8,
}

/// A key name, one hash field, a value, and the database to work in.
pub struct FieldValueArgs<V, F> {
    pub name: String,
    pub field: F,
    pub value: V,
    pub db: u8,
}

/// One hash field together with its value.
pub struct FieldValueItem<T> {
    pub field: String,
    pub value: T,
}

/// Just a key name and the database to work in.
pub struct NameArgs {
    pub name: String,
    pub db: u8,
}

/// Arguments of an incremental scan over one key's members.
pub struct ItemScanArgs {
    pub name: String,
    pub cursor: String,
    pub count: i64,
    pub search: Option<String>,
    pub db: u8,
}

/// One page of an incremental scan: the next cursor and this page's items.
pub struct ScanResp<T> {
    pub cursor: String,
    pub keys: Vec<T>,
}

/// One hash field and its value, both as display text.
pub struct Field {
    pub field: String,
    pub value: String,
}

/// What a terminal-style event carries back to its listener.
pub struct EventResp<T> {
    pub data: T,
    pub success: bool,
    pub event: String,
}

impl<T> EventResp<T> {
    pub fn new(data: T, event: String) -> (r: Self)
        ensures
            r.data == data,
            r.success,
            r.event == event,
    {
        EventResp { data, success: true, event }
    }
}

}
