//! Response envelopes of the surrounding HTTP layer, and the pagination
//! rule they carry.
use vstd::prelude::*;

verus! {

/// Page size used when a request names none.
pub const DEFAULT_PAGE_LIMIT: usize = 25;

/// A complaint about one field of a request.
#[derive(Debug)]
pub struct ValidationField {
    pub field: String,
    pub message: String,
}

/// A status with a message, and the fields at fault where a request was invalid.
#[derive(Debug)]
pub struct HttpResponse {
    pub status: u16,
    pub message: String,
    pub fields: Option<Vec<ValidationField>>,
}

impl HttpResponse {
    pub fn new(status: u16, message: String, fields: Option<Vec<ValidationField>>) -> (r: Self)
        ensures
            r.status == status,
            r.message == message,
            r.fields == fields,
    {
        HttpResponse { status, message, fields }
    }
}

impl Default for HttpResponse {
    fn default() -> (r: Self)
        ensures
            r.status == 200,
            r.message@ == "Ok"@,
            r.fields is None,
    {
        HttpResponse { status: 200, message: "Ok".to_owned(), fields: None }
    }
}

/// One page of results: `offset` is the page number, `limit` its size, and
/// `next_page` the following page where results remain beyond this one.
#[derive(Debug)]
pub struct HttpPaginatedResponse<T> {
    pub data: Option<Vec<T>>,
    pub total: u64,
    pub offset: usize,
    pub limit: usize,
    pub next_page: Option<usize>,
}

/// The limit of a request, or the default.
pub open spec fn effective_limit(limit: Option<usize>) -> usize {
    match limit {
        Some(l) => l,
        None => DEFAULT_PAGE_LIMIT,
    }
}

/// The page after `page`, where more than `page * limit` results exist.
pub open spec fn next_page_of(page: usize, limit: usize, total: u64) -> Option<usize> {
    if total > page * limit && page < usize::MAX {
        Some((page + 1) as usize)
    } else {
        None
    }
}

impl<T> HttpPaginatedResponse<T> {
    pub fn new(data: Vec<T>, page: usize, limit: Option<usize>, total: u64) -> (r: Self)
        ensures
            r.data == Some(data),
            r.total == total,
            r.offset == page,
            r.limit == effective_limit(limit),
            r.next_page == next_page_of(page, effective_limit(limit), total),
    {
        let limit = match limit {
            Some(l) => l,
            None => DEFAULT_PAGE_LIMIT,
        };
        let p = page as u128;
        let l = limit as u128;
        assert(p * l <= 0xffff_ffff_ffff_ffff_ffff_ffff_ffff_ffffu128) by (nonlinear_arith)
            requires
                p <= 0xffff_ffff_ffff_ffffu128,
                l <= 0xffff_ffff_ffff_ffffu128,
        ;
        let seen = p * l;
        let next_page = if (total as u128) > seen && page < usize::MAX {
            Some(page + 1)
        } else {
            None
        };
        HttpPaginatedResponse { data: Some(data), total, offset: page, limit, next_page }
    }
}

impl<T> Default for HttpPaginatedResponse<T> {
    fn default() -> (r: Self)
        ensures
            r.data is None,
            r.total == 0,
            r.offset == 1,
            r.limit == DEFAULT_PAGE_LIMIT,
            r.next_page is None,
    {
        HttpPaginatedResponse { data: None, total: 0, offset: 1, limit: DEFAULT_PAGE_LIMIT, next_page: None }
    }
}

/// What an endpoint returns: one page, a list, or a single item.
#[derive(Debug)]
pub enum ReturnTypes<T> {
    Paginated(HttpPaginatedResponse<T>),
    Multiple(Vec<T>),
    Single(T),
}

/// Bounds of a filter; either end may be open.
#[derive(Debug)]
pub struct Range<T> {
    pub start: Option<T>,
    pub end: Option<T>,
}

/// A login request: credentials and the scopes asked for.
#[derive(Debug)]
pub struct AuthRequest {
    pub email: String,
    pub password: String,
    pub scopes: Vec<String>,
}

/// Whether the pagination parameters of a request go together: an offset
/// needs a limit and a limit needs an offset.
#[derive(Debug, Clone, Copy, PartialEq, Eq, Structural)]
pub enum PaginationError {
    LimitRequired,
    OffsetRequired,
}

pub fn validate_pagination(offset: Option<usize>, limit: Option<usize>) -> (r: Result<(), PaginationError>)
    ensures
        offset is Some && limit is None ==> r == Err::<(), _>(PaginationError::LimitRequired),
        offset is None && limit is Some ==> r == Err::<(), _>(PaginationError::OffsetRequired),
        offset is Some == limit is Some ==> r is Ok,
{
    match (offset, limit) {
        (Some(_), None) => Err(PaginationError::LimitRequired),
        (None, Some(_)) => Err(PaginationError::OffsetRequired),
        _ => Ok(()),
    }
}

} // verus!
