//! The outcome of one request: data with its timing, a failure with its
//! diagnostic, or nothing at all when no attempt was made.

use vstd::prelude::*;

verus! {

/// What a failure holds.
pub struct BadModel {
    pub error_code: Option<u8>,
    pub exception_code: Option<u8>,
    pub message: Seq<char>,
}

/// What a success holds.
pub struct GoodModel<T> {
    pub data: Seq<T>,
    pub duration_in_milliseconds: u64,
}

/// What an outcome holds, its timing left out.
pub enum OutcomeModel<T> {
    Bad(BadModel),
    Good(Seq<T>),
    Absent,
}

/// The text of a MODBUS exception code.
pub open spec fn exception_message(code: u8) -> Seq<char> {
    if code == 1 {
        "Exception Code 01 - ILLEGAL FUNCTION"@
    } else if code == 2 {
        "Exception Code 02 - ILLEGAL DATA ADDRESS"@
    } else if code == 3 {
        "Exception Code 03 - ILLEGAL DATA VALUE"@
    } else if code == 4 {
        "Exception Code 04 - SERVER DEVICE FAILURE"@
    } else {
        "Unknown Exception Code"@
    }
}

/// A failure reported by the server, with its function and exception codes.
pub open spec fn bad_with_codes(error_code: u8, exception_code: u8) -> BadModel {
    BadModel {
        error_code: Some(error_code),
        exception_code: Some(exception_code),
        message: exception_message(exception_code),
    }
}

/// A failure detected locally, with its diagnostic.
pub open spec fn bad_with_message(message: Seq<char>) -> BadModel {
    BadModel { error_code: None, exception_code: None, message }
}

/// The text of a MODBUS exception code; every code has one.
pub fn get_message_of_exception_code(code: u8) -> (r: Option<String>)
    ensures
        r matches Some(m) && m@ == exception_message(code),
{
    let message = match code {
        0x01 => "Exception Code 01 - ILLEGAL FUNCTION".to_owned(),
        0x02 => "Exception Code 02 - ILLEGAL DATA ADDRESS".to_owned(),
        0x03 => "Exception Code 03 - ILLEGAL DATA VALUE".to_owned(),
        0x04 => "Exception Code 04 - SERVER DEVICE FAILURE".to_owned(),
        _ => "Unknown Exception Code".to_owned(),
    };
    Some(message)
}

/// A failed request.
#[derive(Debug)]
pub struct ReturnBad {
    error_code: Option<u8>,
    exception_code: Option<u8>,
    message: String,
}

impl View for ReturnBad {
    type V = BadModel;

    closed spec fn view(&self) -> BadModel {
        BadModel {
            error_code: self.error_code,
            exception_code: self.exception_code,
            message: self.message@,
        }
    }
}

impl ReturnBad {
    /// A failure reported by the server; the message is the exception's text.
    pub fn new_with_codes(error_code: u8, exception_code: u8) -> (r: ReturnBad)
        ensures
            r@ == bad_with_codes(error_code, exception_code),
    {
        let message = match get_message_of_exception_code(exception_code) {
            Some(m) => m,
            None => String::new(),
        };
        ReturnBad { error_code: Some(error_code), exception_code: Some(exception_code), message }
    }

    /// A failure detected locally.
    pub fn new_with_message(message: &str) -> (r: ReturnBad)
        ensures
            r@ == bad_with_message(message@),
    {
        ReturnBad { error_code: None, exception_code: None, message: message.to_owned() }
    }

    /// The function code the server answered with, or 0.
    pub fn get_error_code(&self) -> (r: u8)
        ensures
            r == (match self@.error_code {
                Some(c) => c,
                None => 0,
            }),
    {
        match self.error_code {
            Some(c) => c,
            None => 0,
        }
    }

    /// The exception code, or 0.
    pub fn get_exception_code(&self) -> (r: u8)
        ensures
            r == (match self@.exception_code {
                Some(c) => c,
                None => 0,
            }),
    {
        match self.exception_code {
            Some(c) => c,
            None => 0,
        }
    }

    /// The diagnostic.
    pub fn get_message(self) -> (r: String)
        ensures
            r@ == self@.message,
    {
        self.message
    }
}

/// A successful request: its data and how long it took.
#[derive(Debug)]
pub struct ReturnGood<T> {
    data: Vec<T>,
    duration_in_milliseconds: u64,
}

impl<T> View for ReturnGood<T> {
    type V = GoodModel<T>;

    closed spec fn view(&self) -> GoodModel<T> {
        GoodModel { data: self.data@, duration_in_milliseconds: self.duration_in_milliseconds }
    }
}

impl<T> ReturnGood<T> {
    pub fn new(data: Vec<T>, duration_in_milliseconds: u64) -> (r: ReturnGood<T>)
        ensures
            r@ == (GoodModel { data: data@, duration_in_milliseconds }),
    {
        ReturnGood { data, duration_in_milliseconds }
    }

    /// Hands the data out; a second call returns no data.
    pub fn get_data(&mut self) -> (r: Vec<T>)
        ensures
            r@ == old(self)@.data,
            final(self)@ == (GoodModel {
                data: Seq::<T>::empty(),
                duration_in_milliseconds: old(self)@.duration_in_milliseconds,
            }),
    {
        let mut reply: Vec<T> = Vec::new();
        std::mem::swap(&mut self.data, &mut reply);
        reply
    }

    pub fn get_duration_in_milliseconds(&self) -> (r: u64)
        ensures
            r == self@.duration_in_milliseconds,
    {
        self.duration_in_milliseconds
    }
}

/// The outcome of a request for coil states.
#[derive(Debug)]
pub enum ModbusReturnCoils {
    Bad(ReturnBad),
    Good(ReturnGood<bool>),
    Absent,
}

/// The outcome of a request for register values.
#[derive(Debug)]
pub enum ModbusReturnRegisters {
    Bad(ReturnBad),
    Good(ReturnGood<u16>),
    Absent,
}

impl View for ModbusReturnCoils {
    type V = OutcomeModel<bool>;

    open spec fn view(&self) -> OutcomeModel<bool> {
        match self {
            ModbusReturnCoils::Bad(b) => OutcomeModel::Bad(b@),
            ModbusReturnCoils::Good(g) => OutcomeModel::Good(g@.data),
            ModbusReturnCoils::Absent => OutcomeModel::Absent,
        }
    }
}

impl View for ModbusReturnRegisters {
    type V = OutcomeModel<u16>;

    open spec fn view(&self) -> OutcomeModel<u16> {
        match self {
            ModbusReturnRegisters::Bad(b) => OutcomeModel::Bad(b@),
            ModbusReturnRegisters::Good(g) => OutcomeModel::Good(g@.data),
            ModbusReturnRegisters::Absent => OutcomeModel::Absent,
        }
    }
}

/// The name of an outcome's state.
pub open spec fn state_name<T>(o: OutcomeModel<T>) -> Seq<char> {
    match o {
        OutcomeModel::Bad(_) => "bad"@,
        OutcomeModel::Good(_) => "good"@,
        OutcomeModel::Absent => "none"@,
    }
}

impl ModbusReturnCoils {
    pub fn is_bad(&self) -> (r: bool)
        ensures
            r == (self is Bad),
    {
        match self {
            ModbusReturnCoils::Bad(_) => true,
            _ => false,
        }
    }

    pub fn is_good(&self) -> (r: bool)
        ensures
            r == (self is Good),
    {
        match self {
            ModbusReturnCoils::Good(_) => true,
            _ => false,
        }
    }

    pub fn is_none(&self) -> (r: bool)
        ensures
            r == (self is Absent),
    {
        match self {
            ModbusReturnCoils::Absent => true,
            _ => false,
        }
    }

    /// Whether a request was attempted, successfully or not.
    pub fn is_some(&self) -> (r: bool)
        ensures
            r == !(self is Absent),
    {
        match self {
            ModbusReturnCoils::Absent => false,
            _ => true,
        }
    }

    pub fn unwrap_bad(self) -> (r: ReturnBad)
        requires
            self is Bad,
        ensures
            self@ == OutcomeModel::<bool>::Bad(r@),
    {
        match self {
            ModbusReturnCoils::Bad(bad) => bad,
            _ => vstd::pervasive::unreached(),
        }
    }

    pub fn unwrap_good(self) -> (r: ReturnGood<bool>)
        requires
            self is Good,
        ensures
            self@ == OutcomeModel::<bool>::Good(r@.data),
    {
        match self {
            ModbusReturnCoils::Good(good) => good,
            _ => vstd::pervasive::unreached(),
        }
    }

    /// "good", "bad" or "none".
    pub fn state_text(&self) -> (r: String)
        ensures
            r@ == state_name(self@),
    {
        match self {
            ModbusReturnCoils::Bad(_) => "bad".to_owned(),
            ModbusReturnCoils::Good(_) => "good".to_owned(),
            ModbusReturnCoils::Absent => "none".to_owned(),
        }
    }
}

impl ModbusReturnRegisters {
    pub fn is_bad(&self) -> (r: bool)
        ensures
            r == (self is Bad),
    {
        match self {
            ModbusReturnRegisters::Bad(_) => true,
            _ => false,
        }
    }

    pub fn is_good(&self) -> (r: bool)
        ensures
            r == (self is Good),
    {
        match self {
            ModbusReturnRegisters::Good(_) => true,
            _ => false,
        }
    }

    pub fn is_none(&self) -> (r: bool)
        ensures
            r == (self is Absent),
    {
        match self {
            ModbusReturnRegisters::Absent => true,
            _ => false,
        }
    }

    /// Whether a request was attempted, successfully or not.
    pub fn is_some(&self) -> (r: bool)
        ensures
            r == !(self is Absent),
    {
        match self {
            ModbusReturnRegisters::Absent => false,
            _ => true,
        }
    }

    pub fn unwrap_bad(self) -> (r: ReturnBad)
        requires
            self is Bad,
        ensures
            self@ == OutcomeModel::<u16>::Bad(r@),
    {
        match self {
            ModbusReturnRegisters::Bad(bad) => bad,
            _ => vstd::pervasive::unreached(),
        }
    }

    pub fn unwrap_good(self) -> (r: ReturnGood<u16>)
        requires
            self is Good,
        ensures
            self@ == OutcomeModel::<u16>::Good(r@.data),
    {
        match self {
            ModbusReturnRegisters::Good(good) => good,
            _ => vstd::pervasive::unreached(),
        }
    }

    /// "good", "bad" or "none".
    pub fn state_text(&self) -> (r: String)
        ensures
            r@ == state_name(self@),
    {
        match self {
            ModbusReturnRegisters::Bad(_) => "bad".to_owned(),
            ModbusReturnRegisters::Good(_) => "good".to_owned(),
            ModbusReturnRegisters::Absent => "none".to_owned(),
        }
    }
}

} // verus!
