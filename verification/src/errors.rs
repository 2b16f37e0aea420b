use vstd::prelude::*;

verus! {

/// Mathematical view of a failure kind.
#[verifier::ext_equal]
pub ghost enum ErrView {
    NotFound,
    PoolExhausted(Seq<char>),
    Storage,
    Mapping,
}

/// The closed set of failure kinds the data layer can produce.
/// Every kind has exactly one HTTP response policy; handlers never
/// branch on anything beyond this mapping.
#[derive(Debug)]
pub enum MyError {
    /// A read matched zero rows, or an insert's returning clause
    /// produced no row.
    NotFound,
    /// No pooled connection became available; carries the pool's
    /// diagnostic message.
    ConnectionPoolExhausted(String),
    /// Statement preparation or execution failed in the driver.
    StorageError,
    /// A returned row could not be converted into the record shape.
    MappingError,
}

impl View for MyError {
    type V = ErrView;

    open spec fn view(&self) -> ErrView {
        match self {
            MyError::NotFound => ErrView::NotFound,
            MyError::ConnectionPoolExhausted(m) => ErrView::PoolExhausted(m@),
            MyError::StorageError => ErrView::Storage,
            MyError::MappingError => ErrView::Mapping,
        }
    }
}

/// HTTP status a failure kind maps to: absence is 404, every other
/// kind is 500.
pub open spec fn spec_status_of(e: ErrView) -> int {
    match e {
        ErrView::NotFound => 404,
        ErrView::PoolExhausted(_) => 500,
        ErrView::Storage => 500,
        ErrView::Mapping => 500,
    }
}

/// Response body a failure kind maps to: empty for absence, the
/// pool's diagnostic text for exhaustion, a generic message that
/// leaks no internal detail otherwise.
pub open spec fn spec_body_of(e: ErrView) -> Seq<char> {
    match e {
        ErrView::NotFound => Seq::<char>::empty(),
        ErrView::PoolExhausted(m) => m,
        ErrView::Storage => "internal error"@,
        ErrView::Mapping => "internal error"@,
    }
}

impl MyError {
    /// The HTTP status for this kind; total over the closed set.
    pub fn http_status(&self) -> (s: u16)
        ensures
            s as int == spec_status_of(self@),
    {
        match self {
            MyError::NotFound => 404,
            MyError::ConnectionPoolExhausted(_) => 500,
            MyError::StorageError => 500,
            MyError::MappingError => 500,
        }
    }

    /// The HTTP response body for this kind.
    pub fn http_body(&self) -> (b: String)
        ensures
            b@ == spec_body_of(self@),
    {
        match self {
            MyError::NotFound => String::new(),
            MyError::ConnectionPoolExhausted(m) => m.clone(),
            MyError::StorageError => String::from_str("internal error"),
            MyError::MappingError => String::from_str("internal error"),
        }
    }
}

} // verus!
