//! The player domain's catalog of command errors.
//!
//! Each error has a stable code, a status class and a message template
//! whose `{field}` placeholders `render` fills in with the error's fields.
//! Rejections carry the unrendered template, so that log lines are the
//! same for every value.

use vstd::prelude::*;
use crate::decimal::{dec_int, fmt_i64};
use crate::rejection::{ErrorStatus, Rejection};

verus! {

/// Rejection: Player already exists.
#[derive(Debug, Clone, Copy, PartialEq, Eq)]
pub struct PlayerAlreadyExists;

impl PlayerAlreadyExists {
    pub const CODE: &'static str = "PLAYER_ALREADY_EXISTS";
    pub const TEMPLATE: &'static str = "Player already exists";

    /// The status class of this error.
    pub fn status(&self) -> (s: ErrorStatus)
        ensures
            s == ErrorStatus::PreconditionFailed,
    {
        ErrorStatus::PreconditionFailed
    }

    /// The named fields of this error, in template order.
    pub fn fields(&self) -> (f: Vec<(String, String)>)
        ensures
            f@.len() == 0,
    {
        let mut f: Vec<(String, String)> = Vec::new();
        f
    }

    /// The template with every placeholder replaced by its field.
    pub fn render(&self) -> (r: String)
        ensures
            r@ == "Player already exists"@,
    {
        let r = String::new();
        let r = r.concat("Player already exists");
        r
    }

    /// The rejection this error stands for: its code, status, unrendered
    /// template and fields.
    pub fn reject(&self) -> (r: Rejection)
        ensures
            r.code@ == "PLAYER_ALREADY_EXISTS"@,
            r.status == ErrorStatus::PreconditionFailed,
            r.message@ == "Player already exists"@,
            r.details@.len() == 0,
    {
        Rejection {
            code: String::from_str("PLAYER_ALREADY_EXISTS"),
            status: ErrorStatus::PreconditionFailed,
            message: String::from_str("Player already exists"),
            details: self.fields(),
        }
    }
}

/// Rejection: display_name is required.
#[derive(Debug, Clone, Copy, PartialEq, Eq)]
pub struct DisplayNameRequired;

impl DisplayNameRequired {
    pub const CODE: &'static str = "DISPLAY_NAME_REQUIRED";
    pub const TEMPLATE: &'static str = "display_name is required";

    /// The status class of this error.
    pub fn status(&self) -> (s: ErrorStatus)
        ensures
            s == ErrorStatus::InvalidArgument,
    {
        ErrorStatus::InvalidArgument
    }

    /// The named fields of this error, in template order.
    pub fn fields(&self) -> (f: Vec<(String, String)>)
        ensures
            f@.len() == 0,
    {
        let mut f: Vec<(String, String)> = Vec::new();
        f
    }

    /// The template with every placeholder replaced by its field.
    pub fn render(&self) -> (r: String)
        ensures
            r@ == "display_name is required"@,
    {
        let r = String::new();
        let r = r.concat("display_name is required");
        r
    }

    /// The rejection this error stands for: its code, status, unrendered
    /// template and fields.
    pub fn reject(&self) -> (r: Rejection)
        ensures
            r.code@ == "DISPLAY_NAME_REQUIRED"@,
            r.status == ErrorStatus::InvalidArgument,
            r.message@ == "display_name is required"@,
            r.details@.len() == 0,
    {
        Rejection {
            code: String::from_str("DISPLAY_NAME_REQUIRED"),
            status: ErrorStatus::InvalidArgument,
            message: String::from_str("display_name is required"),
            details: self.fields(),
        }
    }
}

/// Rejection: email is required.
#[derive(Debug, Clone, Copy, PartialEq, Eq)]
pub struct EmailRequired;

impl EmailRequired {
    pub const CODE: &'static str = "EMAIL_REQUIRED";
    pub const TEMPLATE: &'static str = "email is required";

    /// The status class of this error.
    pub fn status(&self) -> (s: ErrorStatus)
        ensures
            s == ErrorStatus::InvalidArgument,
    {
        ErrorStatus::InvalidArgument
    }

    /// The named fields of this error, in template order.
    pub fn fields(&self) -> (f: Vec<(String, String)>)
        ensures
            f@.len() == 0,
    {
        let mut f: Vec<(String, String)> = Vec::new();
        f
    }

    /// The template with every placeholder replaced by its field.
    pub fn render(&self) -> (r: String)
        ensures
            r@ == "email is required"@,
    {
        let r = String::new();
        let r = r.concat("email is required");
        r
    }

    /// The rejection this error stands for: its code, status, unrendered
    /// template and fields.
    pub fn reject(&self) -> (r: Rejection)
        ensures
            r.code@ == "EMAIL_REQUIRED"@,
            r.status == ErrorStatus::InvalidArgument,
            r.message@ == "email is required"@,
            r.details@.len() == 0,
    {
        Rejection {
            code: String::from_str("EMAIL_REQUIRED"),
            status: ErrorStatus::InvalidArgument,
            message: String::from_str("email is required"),
            details: self.fields(),
        }
    }
}

/// Rejection: Player does not exist.
#[derive(Debug, Clone, Copy, PartialEq, Eq)]
pub struct PlayerNotFound;

impl PlayerNotFound {
    pub const CODE: &'static str = "PLAYER_NOT_FOUND";
    pub const TEMPLATE: &'static str = "Player does not exist";

    /// The status class of this error.
    pub fn status(&self) -> (s: ErrorStatus)
        ensures
            s == ErrorStatus::PreconditionFailed,
    {
        ErrorStatus::PreconditionFailed
    }

    /// The named fields of this error, in template order.
    pub fn fields(&self) -> (f: Vec<(String, String)>)
        ensures
            f@.len() == 0,
    {
        let mut f: Vec<(String, String)> = Vec::new();
        f
    }

    /// The template with every placeholder replaced by its field.
    pub fn render(&self) -> (r: String)
        ensures
            r@ == "Player does not exist"@,
    {
        let r = String::new();
        let r = r.concat("Player does not exist");
        r
    }

    /// The rejection this error stands for: its code, status, unrendered
    /// template and fields.
    pub fn reject(&self) -> (r: Rejection)
        ensures
            r.code@ == "PLAYER_NOT_FOUND"@,
            r.status == ErrorStatus::PreconditionFailed,
            r.message@ == "Player does not exist"@,
            r.details@.len() == 0,
    {
        Rejection {
            code: String::from_str("PLAYER_NOT_FOUND"),
            status: ErrorStatus::PreconditionFailed,
            message: String::from_str("Player does not exist"),
            details: self.fields(),
        }
    }
}

/// Rejection: Amount must be positive, got {value}.
#[derive(Debug, Clone, PartialEq, Eq)]
pub struct AmountMustBePositive {
    pub value: i64,
}

impl AmountMustBePositive {
    pub const CODE: &'static str = "AMOUNT_MUST_BE_POSITIVE";
    pub const TEMPLATE: &'static str = "Amount must be positive, got {value}";

    /// The status class of this error.
    pub fn status(&self) -> (s: ErrorStatus)
        ensures
            s == ErrorStatus::InvalidArgument,
    {
        ErrorStatus::InvalidArgument
    }

    /// The named fields of this error, in template order.
    pub fn fields(&self) -> (f: Vec<(String, String)>)
        ensures
            f@.len() == 1,
            f@[0].0@ == "value"@,
            f@[0].1@ == dec_int(self.value as int),
    {
        let mut f: Vec<(String, String)> = Vec::new();
        f.push((String::from_str("value"), fmt_i64(self.value)));
        f
    }

    /// The template with every placeholder replaced by its field.
    pub fn render(&self) -> (r: String)
        ensures
            r@ == "Amount must be positive, got "@ + dec_int(self.value as int),
    {
        let r = String::new();
        let r = r.concat("Amount must be positive, got ");
        let r = r.concat(fmt_i64(self.value).as_str());
        r
    }

    /// The rejection this error stands for: its code, status, unrendered
    /// template and fields.
    pub fn reject(&self) -> (r: Rejection)
        ensures
            r.code@ == "AMOUNT_MUST_BE_POSITIVE"@,
            r.status == ErrorStatus::InvalidArgument,
            r.message@ == "Amount must be positive, got {value}"@,
            r.details@[0].0@ == "value"@,
            r.details@[0].1@ == dec_int(self.value as int),
            r.details@.len() == 1,
    {
        Rejection {
            code: String::from_str("AMOUNT_MUST_BE_POSITIVE"),
            status: ErrorStatus::InvalidArgument,
            message: String::from_str("Amount must be positive, got {value}"),
            details: self.fields(),
        }
    }

    /// The `value` field.
    pub fn value(&self) -> (v: i64)
        ensures
            v == self.value,
    {
        self.value
    }
}

/// Rejection: Amount must be non-zero.
#[derive(Debug, Clone, PartialEq, Eq)]
pub struct AmountMustBeNonZero {
    pub value: i64,
}

impl AmountMustBeNonZero {
    pub const CODE: &'static str = "AMOUNT_MUST_BE_NON_ZERO";
    pub const TEMPLATE: &'static str = "Amount must be non-zero";

    /// The status class of this error.
    pub fn status(&self) -> (s: ErrorStatus)
        ensures
            s == ErrorStatus::InvalidArgument,
    {
        ErrorStatus::InvalidArgument
    }

    /// The named fields of this error, in template order.
    pub fn fields(&self) -> (f: Vec<(String, String)>)
        ensures
            f@.len() == 1,
            f@[0].0@ == "value"@,
            f@[0].1@ == dec_int(self.value as int),
    {
        let mut f: Vec<(String, String)> = Vec::new();
        f.push((String::from_str("value"), fmt_i64(self.value)));
        f
    }

    /// The template with every placeholder replaced by its field.
    pub fn render(&self) -> (r: String)
        ensures
            r@ == "Amount must be non-zero"@,
    {
        let r = String::new();
        let r = r.concat("Amount must be non-zero");
        r
    }

    /// The rejection this error stands for: its code, status, unrendered
    /// template and fields.
    pub fn reject(&self) -> (r: Rejection)
        ensures
            r.code@ == "AMOUNT_MUST_BE_NON_ZERO"@,
            r.status == ErrorStatus::InvalidArgument,
            r.message@ == "Amount must be non-zero"@,
            r.details@[0].0@ == "value"@,
            r.details@[0].1@ == dec_int(self.value as int),
            r.details@.len() == 1,
    {
        Rejection {
            code: String::from_str("AMOUNT_MUST_BE_NON_ZERO"),
            status: ErrorStatus::InvalidArgument,
            message: String::from_str("Amount must be non-zero"),
            details: self.fields(),
        }
    }

    /// The `value` field.
    pub fn value(&self) -> (v: i64)
        ensures
            v == self.value,
    {
        self.value
    }
}

/// Rejection: Insufficient available balance: requested {requested}, available {available}.
#[derive(Debug, Clone, PartialEq, Eq)]
pub struct InsufficientAvailableBalance {
    pub requested: i64,
    pub available: i64,
}

impl InsufficientAvailableBalance {
    pub const CODE: &'static str = "INSUFFICIENT_AVAILABLE_BALANCE";
    pub const TEMPLATE: &'static str = "Insufficient available balance: requested {requested}, available {available}";

    /// The status class of this error.
    pub fn status(&self) -> (s: ErrorStatus)
        ensures
            s == ErrorStatus::PreconditionFailed,
    {
        ErrorStatus::PreconditionFailed
    }

    /// The named fields of this error, in template order.
    pub fn fields(&self) -> (f: Vec<(String, String)>)
        ensures
            f@.len() == 2,
            f@[0].0@ == "requested"@,
            f@[0].1@ == dec_int(self.requested as int),
            f@[1].0@ == "available"@,
            f@[1].1@ == dec_int(self.available as int),
    {
        let mut f: Vec<(String, String)> = Vec::new();
        f.push((String::from_str("requested"), fmt_i64(self.requested)));
        f.push((String::from_str("available"), fmt_i64(self.available)));
        f
    }

    /// The template with every placeholder replaced by its field.
    pub fn render(&self) -> (r: String)
        ensures
            r@ == "Insufficient available balance: requested "@ + dec_int(self.requested as int) + ", available "@ + dec_int(self.available as int),
    {
        let r = String::new();
        let r = r.concat("Insufficient available balance: requested ");
        let r = r.concat(fmt_i64(self.requested).as_str());
        let r = r.concat(", available ");
        let r = r.concat(fmt_i64(self.available).as_str());
        r
    }

    /// The rejection this error stands for: its code, status, unrendered
    /// template and fields.
    pub fn reject(&self) -> (r: Rejection)
        ensures
            r.code@ == "INSUFFICIENT_AVAILABLE_BALANCE"@,
            r.status == ErrorStatus::PreconditionFailed,
            r.message@ == "Insufficient available balance: requested {requested}, available {available}"@,
            r.details@[0].0@ == "requested"@,
            r.details@[0].1@ == dec_int(self.requested as int),
            r.details@[1].0@ == "available"@,
            r.details@[1].1@ == dec_int(self.available as int),
            r.details@.len() == 2,
    {
        Rejection {
            code: String::from_str("INSUFFICIENT_AVAILABLE_BALANCE"),
            status: ErrorStatus::PreconditionFailed,
            message: String::from_str("Insufficient available balance: requested {requested}, available {available}"),
            details: self.fields(),
        }
    }

    /// The `requested` field.
    pub fn requested(&self) -> (v: i64)
        ensures
            v == self.requested,
    {
        self.requested
    }

    /// The `available` field.
    pub fn available(&self) -> (v: i64)
        ensures
            v == self.available,
    {
        self.available
    }
}

/// Rejection: Insufficient funds: requested {requested}, available {available}.
#[derive(Debug, Clone, PartialEq, Eq)]
pub struct InsufficientFunds {
    pub requested: i64,
    pub available: i64,
}

impl InsufficientFunds {
    pub const CODE: &'static str = "INSUFFICIENT_FUNDS";
    pub const TEMPLATE: &'static str = "Insufficient funds: requested {requested}, available {available}";

    /// The status class of this error.
    pub fn status(&self) -> (s: ErrorStatus)
        ensures
            s == ErrorStatus::PreconditionFailed,
    {
        ErrorStatus::PreconditionFailed
    }

    /// The named fields of this error, in template order.
    pub fn fields(&self) -> (f: Vec<(String, String)>)
        ensures
            f@.len() == 2,
            f@[0].0@ == "requested"@,
            f@[0].1@ == dec_int(self.requested as int),
            f@[1].0@ == "available"@,
            f@[1].1@ == dec_int(self.available as int),
    {
        let mut f: Vec<(String, String)> = Vec::new();
        f.push((String::from_str("requested"), fmt_i64(self.requested)));
        f.push((String::from_str("available"), fmt_i64(self.available)));
        f
    }

    /// The template with every placeholder replaced by its field.
    pub fn render(&self) -> (r: String)
        ensures
            r@ == "Insufficient funds: requested "@ + dec_int(self.requested as int) + ", available "@ + dec_int(self.available as int),
    {
        let r = String::new();
        let r = r.concat("Insufficient funds: requested ");
        let r = r.concat(fmt_i64(self.requested).as_str());
        let r = r.concat(", available ");
        let r = r.concat(fmt_i64(self.available).as_str());
        r
    }

    /// The rejection this error stands for: its code, status, unrendered
    /// template and fields.
    pub fn reject(&self) -> (r: Rejection)
        ensures
            r.code@ == "INSUFFICIENT_FUNDS"@,
            r.status == ErrorStatus::PreconditionFailed,
            r.message@ == "Insufficient funds: requested {requested}, available {available}"@,
            r.details@[0].0@ == "requested"@,
            r.details@[0].1@ == dec_int(self.requested as int),
            r.details@[1].0@ == "available"@,
            r.details@[1].1@ == dec_int(self.available as int),
            r.details@.len() == 2,
    {
        Rejection {
            code: String::from_str("INSUFFICIENT_FUNDS"),
            status: ErrorStatus::PreconditionFailed,
            message: String::from_str("Insufficient funds: requested {requested}, available {available}"),
            details: self.fields(),
        }
    }

    /// The `requested` field.
    pub fn requested(&self) -> (v: i64)
        ensures
            v == self.requested,
    {
        self.requested
    }

    /// The `available` field.
    pub fn available(&self) -> (v: i64)
        ensures
            v == self.available,
    {
        self.available
    }
}

/// Rejection: Funds already reserved for table {table_root_hex}.
#[derive(Debug, Clone, PartialEq, Eq)]
pub struct FundsAlreadyReservedForTable {
    pub table_root_hex: String,
}

impl FundsAlreadyReservedForTable {
    pub const CODE: &'static str = "FUNDS_ALREADY_RESERVED_FOR_TABLE";
    pub const TEMPLATE: &'static str = "Funds already reserved for table {table_root_hex}";

    /// The status class of this error.
    pub fn status(&self) -> (s: ErrorStatus)
        ensures
            s == ErrorStatus::PreconditionFailed,
    {
        ErrorStatus::PreconditionFailed
    }

    /// The named fields of this error, in template order.
    pub fn fields(&self) -> (f: Vec<(String, String)>)
        ensures
            f@.len() == 1,
            f@[0].0@ == "table_root_hex"@,
            f@[0].1@ == self.table_root_hex@,
    {
        let mut f: Vec<(String, String)> = Vec::new();
        f.push((String::from_str("table_root_hex"), self.table_root_hex.clone()));
        f
    }

    /// The template with every placeholder replaced by its field.
    pub fn render(&self) -> (r: String)
        ensures
            r@ == "Funds already reserved for table "@ + self.table_root_hex@,
    {
        let r = String::new();
        let r = r.concat("Funds already reserved for table ");
        let r = r.concat(self.table_root_hex.as_str());
        r
    }

    /// The rejection this error stands for: its code, status, unrendered
    /// template and fields.
    pub fn reject(&self) -> (r: Rejection)
        ensures
            r.code@ == "FUNDS_ALREADY_RESERVED_FOR_TABLE"@,
            r.status == ErrorStatus::PreconditionFailed,
            r.message@ == "Funds already reserved for table {table_root_hex}"@,
            r.details@[0].0@ == "table_root_hex"@,
            r.details@[0].1@ == self.table_root_hex@,
            r.details@.len() == 1,
    {
        Rejection {
            code: String::from_str("FUNDS_ALREADY_RESERVED_FOR_TABLE"),
            status: ErrorStatus::PreconditionFailed,
            message: String::from_str("Funds already reserved for table {table_root_hex}"),
            details: self.fields(),
        }
    }
}

/// Rejection: table_root is required.
#[derive(Debug, Clone, Copy, PartialEq, Eq)]
pub struct TableRootRequired;

impl TableRootRequired {
    pub const CODE: &'static str = "TABLE_ROOT_REQUIRED";
    pub const TEMPLATE: &'static str = "table_root is required";

    /// The status class of this error.
    pub fn status(&self) -> (s: ErrorStatus)
        ensures
            s == ErrorStatus::InvalidArgument,
    {
        ErrorStatus::InvalidArgument
    }

    /// The named fields of this error, in template order.
    pub fn fields(&self) -> (f: Vec<(String, String)>)
        ensures
            f@.len() == 0,
    {
        let mut f: Vec<(String, String)> = Vec::new();
        f
    }

    /// The template with every placeholder replaced by its field.
    pub fn render(&self) -> (r: String)
        ensures
            r@ == "table_root is required"@,
    {
        let r = String::new();
        let r = r.concat("table_root is required");
        r
    }

    /// The rejection this error stands for: its code, status, unrendered
    /// template and fields.
    pub fn reject(&self) -> (r: Rejection)
        ensures
            r.code@ == "TABLE_ROOT_REQUIRED"@,
            r.status == ErrorStatus::InvalidArgument,
            r.message@ == "table_root is required"@,
            r.details@.len() == 0,
    {
        Rejection {
            code: String::from_str("TABLE_ROOT_REQUIRED"),
            status: ErrorStatus::InvalidArgument,
            message: String::from_str("table_root is required"),
            details: self.fields(),
        }
    }
}

/// Rejection: No funds reserved for table {table_root_hex}.
#[derive(Debug, Clone, PartialEq, Eq)]
pub struct NoFundsReservedForTable {
    pub table_root_hex: String,
}

impl NoFundsReservedForTable {
    pub const CODE: &'static str = "NO_FUNDS_RESERVED_FOR_TABLE";
    pub const TEMPLATE: &'static str = "No funds reserved for table {table_root_hex}";

    /// The status class of this error.
    pub fn status(&self) -> (s: ErrorStatus)
        ensures
            s == ErrorStatus::PreconditionFailed,
    {
        ErrorStatus::PreconditionFailed
    }

    /// The named fields of this error, in template order.
    pub fn fields(&self) -> (f: Vec<(String, String)>)
        ensures
            f@.len() == 1,
            f@[0].0@ == "table_root_hex"@,
            f@[0].1@ == self.table_root_hex@,
    {
        let mut f: Vec<(String, String)> = Vec::new();
        f.push((String::from_str("table_root_hex"), self.table_root_hex.clone()));
        f
    }

    /// The template with every placeholder replaced by its field.
    pub fn render(&self) -> (r: String)
        ensures
            r@ == "No funds reserved for table "@ + self.table_root_hex@,
    {
        let r = String::new();
        let r = r.concat("No funds reserved for table ");
        let r = r.concat(self.table_root_hex.as_str());
        r
    }

    /// The rejection this error stands for: its code, status, unrendered
    /// template and fields.
    pub fn reject(&self) -> (r: Rejection)
        ensures
            r.code@ == "NO_FUNDS_RESERVED_FOR_TABLE"@,
            r.status == ErrorStatus::PreconditionFailed,
            r.message@ == "No funds reserved for table {table_root_hex}"@,
            r.details@[0].0@ == "table_root_hex"@,
            r.details@[0].1@ == self.table_root_hex@,
            r.details@.len() == 1,
    {
        Rejection {
            code: String::from_str("NO_FUNDS_RESERVED_FOR_TABLE"),
            status: ErrorStatus::PreconditionFailed,
            message: String::from_str("No funds reserved for table {table_root_hex}"),
            details: self.fields(),
        }
    }
}

/// Rejection: key is required.
#[derive(Debug, Clone, Copy, PartialEq, Eq)]
pub struct KeyRequired;

impl KeyRequired {
    pub const CODE: &'static str = "KEY_REQUIRED";
    pub const TEMPLATE: &'static str = "key is required";

    /// The status class of this error.
    pub fn status(&self) -> (s: ErrorStatus)
        ensures
            s == ErrorStatus::InvalidArgument,
    {
        ErrorStatus::InvalidArgument
    }

    /// The named fields of this error, in template order.
    pub fn fields(&self) -> (f: Vec<(String, String)>)
        ensures
            f@.len() == 0,
    {
        let mut f: Vec<(String, String)> = Vec::new();
        f
    }

    /// The template with every placeholder replaced by its field.
    pub fn render(&self) -> (r: String)
        ensures
            r@ == "key is required"@,
    {
        let r = String::new();
        let r = r.concat("key is required");
        r
    }

    /// The rejection this error stands for: its code, status, unrendered
    /// template and fields.
    pub fn reject(&self) -> (r: Rejection)
        ensures
            r.code@ == "KEY_REQUIRED"@,
            r.status == ErrorStatus::InvalidArgument,
            r.message@ == "key is required"@,
            r.details@.len() == 0,
    {
        Rejection {
            code: String::from_str("KEY_REQUIRED"),
            status: ErrorStatus::InvalidArgument,
            message: String::from_str("key is required"),
            details: self.fields(),
        }
    }
}

/// Rejection: Amount exceeds reserved funds: requested {requested}, available {available}.
#[derive(Debug, Clone, PartialEq, Eq)]
pub struct AmountExceedsReservedFunds {
    pub requested: i64,
    pub available: i64,
}

impl AmountExceedsReservedFunds {
    pub const CODE: &'static str = "AMOUNT_EXCEEDS_RESERVED_FUNDS";
    pub const TEMPLATE: &'static str = "Amount exceeds reserved funds: requested {requested}, available {available}";

    /// The status class of this error.
    pub fn status(&self) -> (s: ErrorStatus)
        ensures
            s == ErrorStatus::PreconditionFailed,
    {
        ErrorStatus::PreconditionFailed
    }

    /// The named fields of this error, in template order.
    pub fn fields(&self) -> (f: Vec<(String, String)>)
        ensures
            f@.len() == 2,
            f@[0].0@ == "requested"@,
            f@[0].1@ == dec_int(self.requested as int),
            f@[1].0@ == "available"@,
            f@[1].1@ == dec_int(self.available as int),
    {
        let mut f: Vec<(String, String)> = Vec::new();
        f.push((String::from_str("requested"), fmt_i64(self.requested)));
        f.push((String::from_str("available"), fmt_i64(self.available)));
        f
    }

    /// The template with every placeholder replaced by its field.
    pub fn render(&self) -> (r: String)
        ensures
            r@ == "Amount exceeds reserved funds: requested "@ + dec_int(self.requested as int) + ", available "@ + dec_int(self.available as int),
    {
        let r = String::new();
        let r = r.concat("Amount exceeds reserved funds: requested ");
        let r = r.concat(fmt_i64(self.requested).as_str());
        let r = r.concat(", available ");
        let r = r.concat(fmt_i64(self.available).as_str());
        r
    }

    /// The rejection this error stands for: its code, status, unrendered
    /// template and fields.
    pub fn reject(&self) -> (r: Rejection)
        ensures
            r.code@ == "AMOUNT_EXCEEDS_RESERVED_FUNDS"@,
            r.status == ErrorStatus::PreconditionFailed,
            r.message@ == "Amount exceeds reserved funds: requested {requested}, available {available}"@,
            r.details@[0].0@ == "requested"@,
            r.details@[0].1@ == dec_int(self.requested as int),
            r.details@[1].0@ == "available"@,
            r.details@[1].1@ == dec_int(self.available as int),
            r.details@.len() == 2,
    {
        Rejection {
            code: String::from_str("AMOUNT_EXCEEDS_RESERVED_FUNDS"),
            status: ErrorStatus::PreconditionFailed,
            message: String::from_str("Amount exceeds reserved funds: requested {requested}, available {available}"),
            details: self.fields(),
        }
    }

    /// The `requested` field.
    pub fn requested(&self) -> (v: i64)
        ensures
            v == self.requested,
    {
        self.requested
    }

    /// The `available` field.
    pub fn available(&self) -> (v: i64)
        ensures
            v == self.available,
    {
        self.available
    }
}

} // verus!
