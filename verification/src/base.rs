use chrono::Datelike;
use vstd::prelude::*;
use vstd::string::StringExecFns;
use vstd::std_specs::cmp::PartialEqSpec;
use vstd::std_specs::cmp::PartialEqSpecImpl;
use vstd::std_specs::hash::DefaultHasherAdditionalSpecFns;
use std::collections::hash_map::DefaultHasher;
use std::hash::Hasher;

verus! {

/// Smallest year that a calendar date may carry.
pub const MIN_YEAR: i32 = -262143;

/// Largest year that a calendar date may carry.
pub const MAX_YEAR: i32 = 262142;

/// Whether `year` is a leap year of the proleptic Gregorian calendar.
pub open spec fn is_leap_year(year: int) -> bool {
    year % 4 == 0 && (year % 100 != 0 || year % 400 == 0)
}

/// Number of days of `month` in `year`; zero for a month outside 1..=12.
pub open spec fn days_in_month(year: int, month: int) -> int {
    if month == 2 {
        if is_leap_year(year) { 29 } else { 28 }
    } else if month == 4 || month == 6 || month == 9 || month == 11 {
        30
    } else if 1 <= month <= 12 {
        31
    } else {
        0
    }
}

/// Whether the triple names a day that exists in the calendar, within the
/// range of years that dates support.
pub open spec fn is_calendar_date(year: int, month: int, day: int) -> bool {
    &&& MIN_YEAR <= year <= MAX_YEAR
    &&& 1 <= month <= 12
    &&& 1 <= day <= days_in_month(year, month)
}

/// Text of one decimal digit; empty for a number that is not a digit.
pub open spec fn digit_text(digit: int) -> Seq<char> {
    if digit == 0 {
        "0"@
    } else if digit == 1 {
        "1"@
    } else if digit == 2 {
        "2"@
    } else if digit == 3 {
        "3"@
    } else if digit == 4 {
        "4"@
    } else if digit == 5 {
        "5"@
    } else if digit == 6 {
        "6"@
    } else if digit == 7 {
        "7"@
    } else if digit == 8 {
        "8"@
    } else if digit == 9 {
        "9"@
    } else {
        Seq::empty()
    }
}

/// A number below one hundred as two digits.
pub open spec fn two_digits(n: int) -> Seq<char> {
    digit_text(n / 10) + digit_text(n % 10)
}

/// `YYYY-MM-DD` for a year from 0 to 9999.
pub open spec fn iso_date_text(year: int, month: int, day: int) -> Seq<char> {
    two_digits(year / 100) + two_digits(year % 100) + "-"@ + two_digits(month) + "-"@ + two_digits(
        day,
    )
}

/// A number in decimal notation, filled up with zeros to four digits.
pub open spec fn at_least_four_digits(n: nat) -> Seq<char> {
    if n < 10 {
        "000"@ + decimal_text(n)
    } else if n < 100 {
        "00"@ + decimal_text(n)
    } else if n < 1000 {
        "0"@ + decimal_text(n)
    } else {
        decimal_text(n)
    }
}

/// A year with its sign and at least four digits.
pub open spec fn signed_year_text(year: int) -> Seq<char> {
    if year < 0 {
        "-"@ + at_least_four_digits((-year) as nat)
    } else {
        "+"@ + at_least_four_digits(year as nat)
    }
}

/// The ISO 8601 text of a calendar date: `YYYY-MM-DD` for a year from 0 to
/// 9999; for any other year the year stands with its sign.
pub open spec fn date_text(year: int, month: int, day: int) -> Seq<char> {
    if 0 <= year <= 9999 {
        iso_date_text(year, month, day)
    } else {
        signed_year_text(year) + "-"@ + two_digits(month) + "-"@ + two_digits(day)
    }
}

/// Calls `chrono::NaiveDate::from_ymd_opt` and reports whether it produced a
/// date. Trusted: chrono accepts exactly the days that exist in the proleptic
/// Gregorian calendar for years between `MIN_YEAR` and `MAX_YEAR`.
#[verifier::external_body]
fn chrono_has_date(year: i32, month: u32, day: u32) -> (found: bool)
    ensures
        found == is_calendar_date(year as int, month as int, day as int),
{
    chrono::NaiveDate::from_ymd_opt(year, month, day).is_some()
}

/// Formats a date through `chrono::NaiveDate`'s `Display` implementation.
/// Trusted: for a year from 0 to 9999 the text is the year in four digits,
/// the month and the day in two digits each, with dashes between them; for
/// any other year the year stands with its sign and at least four digits;
/// and chrono reads the text back as the same date.
#[verifier::external_body]
fn chrono_format_date(year: i32, month: u32, day: u32) -> (text: String)
    requires
        is_calendar_date(year as int, month as int, day as int),
    ensures
        text@ == date_text(year as int, month as int, day as int),
        chrono_parsed_date(text@) == Some((year, month, day)),
{
    match chrono::NaiveDate::from_ymd_opt(year, month, day) {
        Some(date) => date.to_string(),
        None => String::new(),
    }
}

/// The calendar date that chrono's `FromStr` for `NaiveDate` reads from the
/// text, as year, month and day; `None` where it refuses the text.
pub uninterp spec fn chrono_parsed_date(text: Seq<char>) -> Option<(i32, u32, u32)>;

/// Parses a date with chrono's `FromStr` for `NaiveDate` and hands out its
/// year, month and day. Trusted: the verdict and the date depend on the text
/// alone, and a date that chrono hands out exists in the calendar.
#[verifier::external_body]
fn chrono_parse_date(text: &str) -> (parts: Option<(i32, u32, u32)>)
    ensures
        parts == chrono_parsed_date(text@),
        parts matches Some(found) ==> is_calendar_date(
            found.0 as int,
            found.1 as int,
            found.2 as int,
        ),
{
    match text.parse::<chrono::NaiveDate>() {
        Ok(date) => Some((date.year(), date.month(), date.day())),
        Err(_) => None,
    }
}

/// A calendar date without a time zone.
#[derive(Clone, Copy, Debug, PartialEq, Eq, Hash, Structural)]
pub struct Date {
    year: i32,
    month: u32,
    day: u32,
}

/// Mathematical value of a date: year, month and day.
pub struct DateModel {
    pub year: int,
    pub month: int,
    pub day: int,
}

impl DateModel {
    /// Chronological order: `self` is not after `other`.
    pub open spec fn le(self, other: DateModel) -> bool {
        self.year < other.year || (self.year == other.year && (self.month < other.month || (
        self.month == other.month && self.day <= other.day)))
    }

    /// The day exists in the calendar.
    pub open spec fn wf(self) -> bool {
        is_calendar_date(self.year, self.month, self.day)
    }

    /// ISO 8601 text of the date.
    pub open spec fn text(self) -> Seq<char> {
        date_text(self.year, self.month, self.day)
    }
}

impl View for Date {
    type V = DateModel;

    closed spec fn view(&self) -> DateModel {
        DateModel { year: self.year as int, month: self.month as int, day: self.day as int }
    }
}

impl Date {
    #[verifier::type_invariant]
    spec fn inv(self) -> bool {
        is_calendar_date(self.year as int, self.month as int, self.day as int)
    }

    /// Builds the date with the given components, or `None` when no such
    /// day exists.
    pub fn from_ymd(year: i32, month: u32, day: u32) -> (date: Option<Date>)
        ensures
            date is Some <==> is_calendar_date(year as int, month as int, day as int),
            date is Some ==> date.unwrap()@ == (DateModel {
                year: year as int,
                month: month as int,
                day: day as int,
            }),
    {
        if chrono_has_date(year, month, day) {
            Some(Date { year, month, day })
        } else {
            None
        }
    }

    /// The date that a text of the form `YYYY-MM-DD` names.
    pub open spec fn spec_parse(text: Seq<char>) -> Option<DateModel> {
        match chrono_parsed_date(text) {
            Some(found) => Some(
                DateModel { year: found.0 as int, month: found.1 as int, day: found.2 as int },
            ),
            None => None,
        }
    }

    /// Reads a date written as `YYYY-MM-DD`; `None` where the text is not a
    /// date.
    pub fn parse(text: &str) -> (date: Option<Date>)
        ensures
            date_model(date) == Self::spec_parse(text@),
    {
        match chrono_parse_date(text) {
            Some((year, month, day)) => Some(Date { year, month, day }),
            None => None,
        }
    }

    pub fn year(&self) -> (year: i32)
        ensures
            year as int == self@.year,
            self@.wf(),
    {
        proof {
            use_type_invariant(self);
        }
        self.year
    }

    pub fn month(&self) -> (month: u32)
        ensures
            month as int == self@.month,
    {
        self.month
    }

    pub fn day(&self) -> (day: u32)
        ensures
            day as int == self@.day,
    {
        self.day
    }

    /// Whether `self` is not after `other`.
    pub fn le(&self, other: &Date) -> (result: bool)
        ensures
            result == self@.le(other@),
    {
        self.year < other.year || (self.year == other.year && (self.month < other.month || (
        self.month == other.month && self.day <= other.day)))
    }

    /// ISO 8601 text of the date; `parse` reads it back as the same date.
    pub fn to_string(&self) -> (text: String)
        ensures
            self@.wf(),
            text@ == self@.text(),
            Self::spec_parse(text@) == Some(self@),
    {
        proof {
            use_type_invariant(self);
        }
        chrono_format_date(self.year, self.month, self.day)
    }
}


/// Why a value of the data model could not be built.
#[derive(Clone, Copy, Debug, PartialEq, Eq, Hash, Structural)]
pub enum ValidationError {
    /// The contact list of a `BasicInfo` was empty.
    EmptyContacts,
    /// The text is not a syntactically valid e-mail address.
    InvalidEmail,
    /// The text is not a valid URL.
    InvalidUrl,
    /// The text is not a valid phone number.
    InvalidPhone,
    /// The text is not an ISO 3166-1 alpha-2 country code.
    InvalidCountry,
    /// The start of a time span lies after its end.
    InvalidTimeSpan,
    /// The year, month and day name no day of the calendar.
    InvalidDate,
    /// A builder was asked to build without its mandatory field.
    MissingField,
}

impl ValidationError {
    /// Human-readable text of the error.
    pub open spec fn spec_message(self) -> Seq<char> {
        match self {
            ValidationError::EmptyContacts => "You must provide at least one contact in your CV."@,
            ValidationError::InvalidEmail => "Not a valid address."@,
            ValidationError::InvalidUrl => "Not a valid URL."@,
            ValidationError::InvalidPhone => "Not a valid phone number."@,
            ValidationError::InvalidCountry => "Not a valid country code."@,
            ValidationError::InvalidTimeSpan =>
                "The lefthand boundary must be less or equal to the righthand one."@,
            ValidationError::InvalidDate => "Not a valid date."@,
            ValidationError::MissingField => "A mandatory field must be initialized."@,
        }
    }

    /// Human-readable text of the error.
    pub fn message(&self) -> (text: &'static str)
        ensures
            text@ == self.spec_message(),
    {
        match self {
            ValidationError::EmptyContacts => "You must provide at least one contact in your CV.",
            ValidationError::InvalidEmail => "Not a valid address.",
            ValidationError::InvalidUrl => "Not a valid URL.",
            ValidationError::InvalidPhone => "Not a valid phone number.",
            ValidationError::InvalidCountry => "Not a valid country code.",
            ValidationError::InvalidTimeSpan =>
                "The lefthand boundary must be less or equal to the righthand one.",
            ValidationError::InvalidDate => "Not a valid date.",
            ValidationError::MissingField => "A mandatory field must be initialized.",
        }
    }
}

/// A period between two dates, the first not after the second.
#[derive(Clone, Copy, Debug, PartialEq, Eq, Hash, Structural)]
pub struct TimeSpan {
    from: Date,
    to: Date,
}

/// Mathematical value of a time span.
pub struct TimeSpanModel {
    pub from: DateModel,
    pub to: DateModel,
}

impl TimeSpanModel {
    /// The span starts no later than it ends.
    pub open spec fn ordered(self) -> bool {
        self.from.le(self.to)
    }

    /// Both days exist, and the span starts no later than it ends.
    pub open spec fn wf(self) -> bool {
        self.from.wf() && self.to.wf() && self.ordered()
    }

    /// Display text: both dates in ISO form around a dash.
    pub open spec fn text(self) -> Seq<char> {
        self.from.text() + "   -   "@ + self.to.text()
    }
}

impl View for TimeSpan {
    type V = TimeSpanModel;

    closed spec fn view(&self) -> TimeSpanModel {
        TimeSpanModel { from: self.from@, to: self.to@ }
    }
}

impl TimeSpan {
    #[verifier::type_invariant]
    spec fn inv(self) -> bool {
        self.from@.wf() && self.to@.wf() && self.from@.le(self.to@)
    }

    /// Builds the span between `from` and `to`; refuses a span that would
    /// end before it starts.
    pub fn new(from: Date, to: Date) -> (span: Result<TimeSpan, ValidationError>)
        ensures
            from@.le(to@) ==> span is Ok && span.unwrap()@ == (TimeSpanModel {
                from: from@,
                to: to@,
            }),
            !from@.le(to@) ==> span == Err::<TimeSpan, ValidationError>(
                ValidationError::InvalidTimeSpan,
            ),
    {
        proof {
            use_type_invariant(&from);
            use_type_invariant(&to);
        }
        if from.le(&to) {
            Ok(TimeSpan { from, to })
        } else {
            Err(ValidationError::InvalidTimeSpan)
        }
    }

    /// First day of the span.
    pub fn from(&self) -> (date: Date)
        ensures
            date@ == self@.from,
            self@.wf(),
    {
        proof {
            use_type_invariant(self);
        }
        self.from
    }

    /// Last day of the span.
    pub fn to(&self) -> (date: Date)
        ensures
            date@ == self@.to,
            self@.wf(),
    {
        proof {
            use_type_invariant(self);
        }
        self.to
    }

    /// Display text of the span.
    pub fn to_string(&self) -> (text: String)
        ensures
            self@.wf(),
            text@ == self@.text(),
    {
        proof {
            use_type_invariant(self);
        }
        let mut text = self.from.to_string();
        text.append("   -   ");
        let end = self.to.to_string();
        text.append(end.as_str());
        text
    }
}

/// Decimal notation of `n`, without leading zeros.
pub open spec fn decimal_text(n: nat) -> Seq<char>
    decreases n,
{
    if n < 10 {
        digit_text(n as int)
    } else {
        decimal_text(n / 10) + digit_text((n % 10) as int)
    }
}

fn digit_str(digit: u32) -> (text: &'static str)
    requires
        digit < 10,
    ensures
        text@ == digit_text(digit as int),
{
    if digit == 0 {
        "0"
    } else if digit == 1 {
        "1"
    } else if digit == 2 {
        "2"
    } else if digit == 3 {
        "3"
    } else if digit == 4 {
        "4"
    } else if digit == 5 {
        "5"
    } else if digit == 6 {
        "6"
    } else if digit == 7 {
        "7"
    } else if digit == 8 {
        "8"
    } else {
        "9"
    }
}

/// Writes `n` in decimal notation.
pub fn decimal_string(n: u32) -> (text: String)
    ensures
        text@ == decimal_text(n as nat),
    decreases n,
{
    if n < 10 {
        String::from_str(digit_str(n))
    } else {
        let head = decimal_string(n / 10);
        head.concat(digit_str(n % 10))
    }
}


/// Whether `fast_chemail::is_valid_email` accepts the text as an e-mail
/// address.
pub uninterp spec fn email_syntax_valid(address: Seq<char>) -> bool;

/// Calls `fast_chemail::is_valid_email`. Trusted: the verdict depends on the
/// text alone.
#[verifier::external_body]
fn is_valid_email(address: &str) -> (valid: bool)
    ensures
        valid == email_syntax_valid(address@),
{
    fast_chemail::is_valid_email(address)
}

/// The serialization that `url::Url::parse` gives the text, or `None` where it
/// refuses the text.
pub uninterp spec fn url_canonical_text(text: Seq<char>) -> Option<Seq<char>>;

/// Calls `url::Url::parse` and hands out the parsed URL's serialization.
/// Trusted: acceptance and serialization depend on the text alone.
#[verifier::external_body]
fn parse_url(text: &str) -> (canonical: Option<String>)
    ensures
        canonical is Some <==> url_canonical_text(text@) is Some,
        canonical is Some ==> canonical.unwrap()@ == url_canonical_text(text@).unwrap(),
{
    match url::Url::parse(text) {
        Ok(parsed) => Some(String::from(parsed)),
        Err(_) => None,
    }
}

/// The international (E.164) text that `phonenumber` displays for the number
/// that `phonenumber::parse` reads, without a default country, from the text;
/// `None` where it refuses the text.
pub uninterp spec fn phone_canonical_text(text: Seq<char>) -> Option<Seq<char>>;

/// Calls `phonenumber::parse` without a default country and hands out the
/// parsed number's `Display` text. Trusted: acceptance and text depend on the
/// input alone.
#[verifier::external_body]
fn parse_phone(text: &str) -> (canonical: Option<String>)
    ensures
        canonical is Some <==> phone_canonical_text(text@) is Some,
        canonical is Some ==> canonical.unwrap()@ == phone_canonical_text(text@).unwrap(),
{
    match phonenumber::parse(None, text) {
        Ok(number) => Some(number.to_string()),
        Err(_) => None,
    }
}

/// Whether `isocountry::CountryCode::for_alpha2` knows the text as an
/// upper-case ISO 3166-1 alpha-2 code.
pub uninterp spec fn country_code_known(code: Seq<char>) -> bool;

/// Calls `isocountry::CountryCode::for_alpha2`. Trusted: the verdict depends
/// on the text alone.
#[verifier::external_body]
fn is_country_code(code: &str) -> (known: bool)
    ensures
        known == country_code_known(code@),
{
    isocountry::CountryCode::for_alpha2(code).is_ok()
}

/// A syntactically valid e-mail address.
#[derive(Debug, Hash, PartialEq, Eq)]
pub struct EmailAddress {
    address: String,
}

impl View for EmailAddress {
    type V = Seq<char>;

    closed spec fn view(&self) -> Seq<char> {
        self.address@
    }
}

impl Clone for EmailAddress {
    fn clone(&self) -> (copy: EmailAddress)
        ensures
            copy@ == self@,
    {
        proof {
            use_type_invariant(self);
        }
        EmailAddress { address: self.address.clone() }
    }
}

impl EmailAddress {
    #[verifier::type_invariant]
    spec fn inv(self) -> bool {
        email_syntax_valid(self.address@)
    }

    /// Validates `address` and keeps it as it was written.
    pub fn from(address: &str) -> (email: Result<EmailAddress, ValidationError>)
        ensures
            email_syntax_valid(address@) ==> email is Ok && email.unwrap()@ == address@,
            !email_syntax_valid(address@) ==> email == Err::<EmailAddress, ValidationError>(
                ValidationError::InvalidEmail,
            ),
    {
        if !is_valid_email(address) {
            return Err(ValidationError::InvalidEmail);
        }
        Ok(EmailAddress { address: String::from_str(address) })
    }

    /// The address as text.
    pub fn as_str(&self) -> (text: &str)
        ensures
            text@ == self@,
            email_syntax_valid(self@),
    {
        proof {
            use_type_invariant(self);
        }
        self.address.as_str()
    }
}

/// A parsed URL, kept in its canonical serialization: the text that parses
/// to itself.
#[derive(Debug, Hash, PartialEq, Eq)]
pub struct Url {
    serialization: String,
}

impl View for Url {
    type V = Seq<char>;

    closed spec fn view(&self) -> Seq<char> {
        self.serialization@
    }
}

impl Clone for Url {
    fn clone(&self) -> (copy: Url)
        ensures
            copy@ == self@,
    {
        proof {
            use_type_invariant(self);
        }
        Url { serialization: self.serialization.clone() }
    }
}

impl Url {
    /// The text is a canonical serialization: parsing it gives it back.
    pub open spec fn is_canonical(text: Seq<char>) -> bool {
        url_canonical_text(text) == Some(text)
    }

    /// The canonical serialization that `text` is parsed to: none where the
    /// text is no URL, or where its serialization would not be read back
    /// as itself.
    pub open spec fn spec_parse(text: Seq<char>) -> Option<Seq<char>> {
        match url_canonical_text(text) {
            Some(canonical) => if Self::is_canonical(canonical) {
                Some(canonical)
            } else {
                None
            },
            None => None,
        }
    }

    #[verifier::type_invariant]
    spec fn inv(self) -> bool {
        Self::is_canonical(self.serialization@)
    }

    /// Parses `text` as an absolute URL and keeps its canonical
    /// serialization.
    pub fn parse(text: &str) -> (url: Result<Url, ValidationError>)
        ensures
            Self::spec_parse(text@) matches Some(canonical) ==> url is Ok && url.unwrap()@
                == canonical,
            Self::spec_parse(text@) is None ==> url == Err::<Url, ValidationError>(
                ValidationError::InvalidUrl,
            ),
    {
        match parse_url(text) {
            Some(serialization) => {
                match parse_url(serialization.as_str()) {
                    Some(again) => {
                        if again == serialization {
                            Ok(Url { serialization })
                        } else {
                            Err(ValidationError::InvalidUrl)
                        }
                    },
                    None => Err(ValidationError::InvalidUrl),
                }
            },
            None => Err(ValidationError::InvalidUrl),
        }
    }

    /// The canonical serialization.
    pub fn as_str(&self) -> (text: &str)
        ensures
            text@ == self@,
            Self::is_canonical(self@),
    {
        proof {
            use_type_invariant(self);
        }
        self.serialization.as_str()
    }
}

/// A parsed phone number, kept in its canonical international form: the
/// text that parses to itself.
#[derive(Debug, Hash, PartialEq, Eq)]
pub struct PhoneNumber {
    international: String,
}

impl View for PhoneNumber {
    type V = Seq<char>;

    closed spec fn view(&self) -> Seq<char> {
        self.international@
    }
}

impl Clone for PhoneNumber {
    fn clone(&self) -> (copy: PhoneNumber)
        ensures
            copy@ == self@,
    {
        proof {
            use_type_invariant(self);
        }
        PhoneNumber { international: self.international.clone() }
    }
}

impl PhoneNumber {
    /// The text is a canonical form: parsing it gives it back.
    pub open spec fn is_canonical(text: Seq<char>) -> bool {
        phone_canonical_text(text) == Some(text)
    }

    /// The canonical form that `text` is parsed to: none where the text is
    /// no phone number, or where its canonical form would not be read back
    /// as itself.
    pub open spec fn spec_parse(text: Seq<char>) -> Option<Seq<char>> {
        match phone_canonical_text(text) {
            Some(canonical) => if Self::is_canonical(canonical) {
                Some(canonical)
            } else {
                None
            },
            None => None,
        }
    }

    #[verifier::type_invariant]
    spec fn inv(self) -> bool {
        Self::is_canonical(self.international@)
    }

    /// Parses `text` as a phone number with its country calling code and
    /// keeps its canonical international form.
    pub fn parse(text: &str) -> (number: Result<PhoneNumber, ValidationError>)
        ensures
            Self::spec_parse(text@) matches Some(canonical) ==> number is Ok && number.unwrap()@
                == canonical,
            Self::spec_parse(text@) is None ==> number == Err::<PhoneNumber, ValidationError>(
                ValidationError::InvalidPhone,
            ),
    {
        match parse_phone(text) {
            Some(international) => {
                match parse_phone(international.as_str()) {
                    Some(again) => {
                        if again == international {
                            Ok(PhoneNumber { international })
                        } else {
                            Err(ValidationError::InvalidPhone)
                        }
                    },
                    None => Err(ValidationError::InvalidPhone),
                }
            },
            None => Err(ValidationError::InvalidPhone),
        }
    }

    /// The canonical international form.
    pub fn as_str(&self) -> (text: &str)
        ensures
            text@ == self@,
            Self::is_canonical(self@),
    {
        proof {
            use_type_invariant(self);
        }
        self.international.as_str()
    }
}

/// A postal address. Two addresses are equal when street, building number,
/// postal code and country all agree.
#[derive(Debug, Hash, Eq)]
pub struct Address {
    street: String,
    street_subunit: u32,
    postal_code: u32,
    country: String,
}

/// Mathematical value of a postal address.
pub struct AddressModel {
    pub street: Seq<char>,
    pub street_subunit: nat,
    pub postal_code: nat,
    pub country: Seq<char>,
}

impl AddressModel {
    /// The country is a known ISO 3166-1 alpha-2 code.
    pub open spec fn wf(self) -> bool {
        country_code_known(self.country)
    }

    /// One-line text of the address.
    pub open spec fn text(self) -> Seq<char> {
        self.street + " "@ + decimal_text(self.street_subunit) + ", "@ + decimal_text(
            self.postal_code,
        ) + ", "@ + self.country
    }
}

impl View for Address {
    type V = AddressModel;

    closed spec fn view(&self) -> AddressModel {
        AddressModel {
            street: self.street@,
            street_subunit: self.street_subunit as nat,
            postal_code: self.postal_code as nat,
            country: self.country@,
        }
    }
}

impl PartialEq for Address {
    fn eq(&self, other: &Address) -> (equal: bool) {
        self.street == other.street && self.street_subunit == other.street_subunit
            && self.postal_code == other.postal_code && self.country == other.country
    }
}

impl PartialEqSpecImpl for Address {
    open spec fn obeys_eq_spec() -> bool {
        true
    }

    open spec fn eq_spec(&self, other: &Address) -> bool {
        self@ == other@
    }
}

impl Clone for Address {
    fn clone(&self) -> (copy: Address)
        ensures
            copy@ == self@,
    {
        proof {
            use_type_invariant(self);
        }
        Address {
            street: self.street.clone(),
            street_subunit: self.street_subunit,
            postal_code: self.postal_code,
            country: self.country.clone(),
        }
    }
}

impl Address {
    #[verifier::type_invariant]
    spec fn inv(self) -> bool {
        country_code_known(self.country@)
    }

    /// Builds an address; `country` must be an upper-case ISO 3166-1 alpha-2
    /// code.
    pub fn new(street: &str, street_subunit: u32, postal_code: u32, country: &str) -> (address:
        Result<Address, ValidationError>)
        ensures
            country_code_known(country@) ==> address is Ok && address.unwrap()@ == (AddressModel {
                street: street@,
                street_subunit: street_subunit as nat,
                postal_code: postal_code as nat,
                country: country@,
            }),
            !country_code_known(country@) ==> address == Err::<Address, ValidationError>(
                ValidationError::InvalidCountry,
            ),
    {
        if !is_country_code(country) {
            return Err(ValidationError::InvalidCountry);
        }
        Ok(
            Address {
                street: String::from_str(street),
                street_subunit,
                postal_code,
                country: String::from_str(country),
            },
        )
    }

    pub fn street(&self) -> (text: &str)
        ensures
            text@ == self@.street,
    {
        self.street.as_str()
    }

    pub fn street_subunit(&self) -> (number: u32)
        ensures
            number as nat == self@.street_subunit,
    {
        self.street_subunit
    }

    pub fn postal_code(&self) -> (code: u32)
        ensures
            code as nat == self@.postal_code,
    {
        self.postal_code
    }

    pub fn country(&self) -> (code: &str)
        ensures
            code@ == self@.country,
            self@.wf(),
    {
        proof {
            use_type_invariant(self);
        }
        self.country.as_str()
    }

    /// One-line text of the address.
    pub fn to_string(&self) -> (text: String)
        ensures
            text@ == self@.text(),
            self@.wf(),
    {
        proof {
            use_type_invariant(self);
        }
        let mut text = self.street.clone();
        text.append(" ");
        let subunit = decimal_string(self.street_subunit);
        text.append(subunit.as_str());
        text.append(", ");
        let postal = decimal_string(self.postal_code);
        text.append(postal.as_str());
        text.append(", ");
        text.append(self.country.as_str());
        text
    }
}

/// One way to reach a person.
#[derive(Debug, Hash, Eq)]
pub enum Contact {
    Email(EmailAddress),
    Website(Url),
    Address(Address),
    Phone(PhoneNumber),
}

/// Mathematical value of a contact: its kind and its canonical payload.
pub enum ContactModel {
    Email(Seq<char>),
    Website(Seq<char>),
    Address(AddressModel),
    Phone(Seq<char>),
}

impl ContactModel {
    /// The payload is valid for its kind and in canonical form.
    pub open spec fn wf(self) -> bool {
        match self {
            ContactModel::Email(address) => email_syntax_valid(address),
            ContactModel::Website(url) => Url::is_canonical(url),
            ContactModel::Address(address) => address.wf(),
            ContactModel::Phone(number) => PhoneNumber::is_canonical(number),
        }
    }

    /// Display text of the contact.
    pub open spec fn text(self) -> Seq<char> {
        match self {
            ContactModel::Email(address) => "E-mail : "@ + address,
            ContactModel::Website(url) => "Website : "@ + url,
            ContactModel::Address(address) => "Address : "@ + address.text(),
            ContactModel::Phone(number) => "Phone : "@ + number,
        }
    }

    /// Hash code of the contact: that of the bytes of its display text.
    pub open spec fn hash_code(self) -> u64 {
        DefaultHasher::spec_finish(seq![vstd::utf8::encode_utf8(self.text())])
    }
}

impl View for Contact {
    type V = ContactModel;

    open spec fn view(&self) -> ContactModel {
        match self {
            Contact::Email(address) => ContactModel::Email(address@),
            Contact::Website(url) => ContactModel::Website(url@),
            Contact::Address(address) => ContactModel::Address(address@),
            Contact::Phone(number) => ContactModel::Phone(number@),
        }
    }
}

impl Clone for Contact {
    fn clone(&self) -> (copy: Contact)
        ensures
            copy@ == self@,
    {
        match self {
            Contact::Email(address) => Contact::Email(address.clone()),
            Contact::Website(url) => Contact::Website(url.clone()),
            Contact::Address(address) => Contact::Address(address.clone()),
            Contact::Phone(number) => Contact::Phone(number.clone()),
        }
    }
}

impl PartialEq for Contact {
    fn eq(&self, other: &Contact) -> (equal: bool) {
        match (self, other) {
            (Contact::Email(a), Contact::Email(b)) => a.address == b.address,
            (Contact::Website(a), Contact::Website(b)) => a.serialization == b.serialization,
            (Contact::Address(a), Contact::Address(b)) => a == b,
            (Contact::Phone(a), Contact::Phone(b)) => a.international == b.international,
            _ => false,
        }
    }
}

impl PartialEqSpecImpl for Contact {
    open spec fn obeys_eq_spec() -> bool {
        true
    }

    open spec fn eq_spec(&self, other: &Contact) -> bool {
        self@ == other@
    }
}

impl Contact {
    /// Display text of the contact.
    pub fn to_string(&self) -> (text: String)
        ensures
            text@ == self@.text(),
            self@.wf(),
    {
        match self {
            Contact::Email(address) => String::from_str("E-mail : ").concat(address.as_str()),
            Contact::Website(url) => String::from_str("Website : ").concat(url.as_str()),
            Contact::Address(address) => {
                let body = address.to_string();
                String::from_str("Address : ").concat(body.as_str())
            },
            Contact::Phone(number) => String::from_str("Phone : ").concat(number.as_str()),
        }
    }

    /// Hash code of the contact, computed from its display text.
    pub fn hash_code(&self) -> (code: u64)
        ensures
            code == self@.hash_code(),
    {
        let text = self.to_string();
        let mut hasher = DefaultHasher::new();
        hasher.write(text.as_str().as_bytes());
        assert(hasher@ =~= seq![vstd::utf8::encode_utf8(self@.text())]);
        hasher.finish()
    }
}

/// Whether two contacts have the same hash code.
pub fn are_hash_equal(first: &Contact, second: &Contact) -> (same: bool)
    ensures
        same == (first@.hash_code() == second@.hash_code()),
        first@ == second@ ==> same,
{
    first.hash_code() == second.hash_code()
}

/// Two addresses are equal exactly when they agree field by field.
pub proof fn lemma_address_equality_by_fields(first: Address, second: Address)
    ensures
        PartialEqSpec::eq_spec(&first, &second) <==> (first@.street == second@.street
            && first@.street_subunit == second@.street_subunit && first@.postal_code
            == second@.postal_code && first@.country == second@.country),
{
}

/// Equal canonical payloads make equal contacts: two phone contacts that were
/// spelled differently but share their canonical form compare equal, have the
/// same display text and the same hash code; so do two contacts of any kind
/// with the same value.
pub proof fn lemma_canonical_contacts_agree(first: Contact, second: Contact)
    requires
        first@ == second@,
    ensures
        PartialEqSpec::eq_spec(&first, &second),
        first@.text() == second@.text(),
        first@.hash_code() == second@.hash_code(),
{
}

/// Two spellings with the same canonical form parse to phone contacts that
/// compare equal and hash alike.
pub proof fn lemma_phone_spellings_agree(first: PhoneNumber, second: PhoneNumber)
    requires
        first@ == second@,
    ensures
        PartialEqSpec::eq_spec(&Contact::Phone(first), &Contact::Phone(second)),
        Contact::Phone(first)@.hash_code() == Contact::Phone(second)@.hash_code(),
{
}

/// The kinds of contact, as the names that a form offers.
pub fn contact_types() -> (kinds: Vec<&'static str>)
    ensures
        kinds@.len() == 4,
        kinds@[0]@ == "email"@,
        kinds@[1]@ == "website"@,
        kinds@[2]@ == "address"@,
        kinds@[3]@ == "phone"@,
{
    vec!["email", "website", "address", "phone"]
}


/// Proficiency in a language, on the six-level CEFR scale.
#[derive(Clone, Copy, Debug, Hash, PartialEq, Eq, Structural)]
pub enum LanguageProficiency {
    A1,
    A2,
    B1,
    B2,
    C1,
    C2,
}

impl LanguageProficiency {
    /// All levels, from the lowest to the highest.
    pub open spec fn all() -> Seq<LanguageProficiency> {
        seq![
            LanguageProficiency::A1,
            LanguageProficiency::A2,
            LanguageProficiency::B1,
            LanguageProficiency::B2,
            LanguageProficiency::C1,
            LanguageProficiency::C2,
        ]
    }

    /// Position of the level on the scale, starting at zero.
    pub open spec fn rank(self) -> int {
        match self {
            LanguageProficiency::A1 => 0,
            LanguageProficiency::A2 => 1,
            LanguageProficiency::B1 => 2,
            LanguageProficiency::B2 => 3,
            LanguageProficiency::C1 => 4,
            LanguageProficiency::C2 => 5,
        }
    }

    /// The code of the level on the scale.
    pub open spec fn spec_code(self) -> Seq<char> {
        match self {
            LanguageProficiency::A1 => "A1"@,
            LanguageProficiency::A2 => "A2"@,
            LanguageProficiency::B1 => "B1"@,
            LanguageProficiency::B2 => "B2"@,
            LanguageProficiency::C1 => "C1"@,
            LanguageProficiency::C2 => "C2"@,
        }
    }

    /// The code of the level on the scale.
    pub fn code(&self) -> (text: &'static str)
        ensures
            text@ == self.spec_code(),
    {
        match self {
            LanguageProficiency::A1 => "A1",
            LanguageProficiency::A2 => "A2",
            LanguageProficiency::B1 => "B1",
            LanguageProficiency::B2 => "B2",
            LanguageProficiency::C1 => "C1",
            LanguageProficiency::C2 => "C2",
        }
    }

    /// Name of the level in words.
    pub open spec fn spec_description(self) -> Seq<char> {
        match self {
            LanguageProficiency::A1 => "Beginner"@,
            LanguageProficiency::A2 => "Elementary"@,
            LanguageProficiency::B1 => "Intermediate"@,
            LanguageProficiency::B2 => "Upper Intermediate"@,
            LanguageProficiency::C1 => "Advanced"@,
            LanguageProficiency::C2 => "Proficiency"@,
        }
    }

    /// The levels in ascending order; every level occurs once, at the
    /// position of its rank.
    pub fn iterator() -> (levels: Vec<LanguageProficiency>)
        ensures
            levels@ == Self::all(),
            forall|level: LanguageProficiency| #[trigger]
                levels@[level.rank()] == level,
    {
        let levels = vec![
            LanguageProficiency::A1,
            LanguageProficiency::A2,
            LanguageProficiency::B1,
            LanguageProficiency::B2,
            LanguageProficiency::C1,
            LanguageProficiency::C2,
        ];
        assert(levels@ =~= Self::all());
        levels
    }

    /// Name of the level in words.
    pub fn description(&self) -> (text: &'static str)
        ensures
            text@ == self.spec_description(),
    {
        match self {
            LanguageProficiency::A1 => "Beginner",
            LanguageProficiency::A2 => "Elementary",
            LanguageProficiency::B1 => "Intermediate",
            LanguageProficiency::B2 => "Upper Intermediate",
            LanguageProficiency::C1 => "Advanced",
            LanguageProficiency::C2 => "Proficiency",
        }
    }

    /// Display text of the level: its description.
    pub fn to_string(&self) -> (text: String)
        ensures
            text@ == self.spec_description(),
    {
        String::from_str(self.description())
    }
}

/// A language that a CV can list.
#[derive(Clone, Copy, Debug, Hash, PartialEq, Eq, Structural)]
pub enum Language {
    Czech,
    Slovak,
    English,
    Russian,
    German,
    Spanish,
    Chinese,
    Dutch,
    French,
    Polish,
    Italian,
    Arabic,
    Portugese,
    Korean,
    Other,
}

impl Language {
    /// All languages, in the order in which a form offers them.
    pub open spec fn all() -> Seq<Language> {
        seq![
            Language::Czech,
            Language::Slovak,
            Language::English,
            Language::Russian,
            Language::German,
            Language::Spanish,
            Language::Chinese,
            Language::Dutch,
            Language::French,
            Language::Polish,
            Language::Italian,
            Language::Arabic,
            Language::Portugese,
            Language::Korean,
            Language::Other,
        ]
    }

    /// Position of the language in `all`.
    pub open spec fn index(self) -> int {
        match self {
            Language::Czech => 0,
            Language::Slovak => 1,
            Language::English => 2,
            Language::Russian => 3,
            Language::German => 4,
            Language::Spanish => 5,
            Language::Chinese => 6,
            Language::Dutch => 7,
            Language::French => 8,
            Language::Polish => 9,
            Language::Italian => 10,
            Language::Arabic => 11,
            Language::Portugese => 12,
            Language::Korean => 13,
            Language::Other => 14,
        }
    }

    /// Name of the language.
    pub open spec fn spec_name(self) -> Seq<char> {
        match self {
            Language::Czech => "Czech"@,
            Language::Slovak => "Slovak"@,
            Language::English => "English"@,
            Language::Russian => "Russian"@,
            Language::German => "German"@,
            Language::Spanish => "Spanish"@,
            Language::Chinese => "Chinese"@,
            Language::Dutch => "Dutch"@,
            Language::French => "French"@,
            Language::Polish => "Polish"@,
            Language::Italian => "Italian"@,
            Language::Arabic => "Arabic"@,
            Language::Portugese => "Portugese"@,
            Language::Korean => "Korean"@,
            Language::Other => "Other"@,
        }
    }

    /// The languages in their fixed order; every language occurs once, at
    /// the position of its index.
    pub fn iterator() -> (languages: Vec<Language>)
        ensures
            languages@ == Self::all(),
            forall|language: Language| #[trigger] languages@[language.index()] == language,
    {
        let languages = vec![
            Language::Czech,
            Language::Slovak,
            Language::English,
            Language::Russian,
            Language::German,
            Language::Spanish,
            Language::Chinese,
            Language::Dutch,
            Language::French,
            Language::Polish,
            Language::Italian,
            Language::Arabic,
            Language::Portugese,
            Language::Korean,
            Language::Other,
        ];
        assert(languages@ =~= Self::all());
        languages
    }

    /// Name of the language.
    pub fn name(&self) -> (text: &'static str)
        ensures
            text@ == self.spec_name(),
    {
        match self {
            Language::Czech => "Czech",
            Language::Slovak => "Slovak",
            Language::English => "English",
            Language::Russian => "Russian",
            Language::German => "German",
            Language::Spanish => "Spanish",
            Language::Chinese => "Chinese",
            Language::Dutch => "Dutch",
            Language::French => "French",
            Language::Polish => "Polish",
            Language::Italian => "Italian",
            Language::Arabic => "Arabic",
            Language::Portugese => "Portugese",
            Language::Korean => "Korean",
            Language::Other => "Other",
        }
    }

    /// Display text of the language: its name.
    pub fn to_string(&self) -> (text: String)
        ensures
            text@ == self.spec_name(),
    {
        String::from_str(self.name())
    }
}

/// A language entry of a CV.
#[derive(Debug, Hash, PartialEq, Eq)]
pub struct Lang {
    pub language: Language,
    pub proficiency: LanguageProficiency,
    pub notes: String,
}

/// Mathematical value of a language entry.
pub struct LangModel {
    pub language: Language,
    pub proficiency: LanguageProficiency,
    pub notes: Seq<char>,
}

impl View for Lang {
    type V = LangModel;

    open spec fn view(&self) -> LangModel {
        LangModel { language: self.language, proficiency: self.proficiency, notes: self.notes@ }
    }
}

impl Clone for Lang {
    fn clone(&self) -> (copy: Lang)
        ensures
            copy@ == self@,
    {
        Lang { language: self.language, proficiency: self.proficiency, notes: self.notes.clone() }
    }
}

/// A period of study.
#[derive(Debug, Hash, PartialEq, Eq)]
pub struct Education {
    pub span: TimeSpan,
    pub uni_name: String,
    pub degree: String,
    pub field_of_study: String,
}

/// Mathematical value of a period of study.
pub struct EducationModel {
    pub span: TimeSpanModel,
    pub uni_name: Seq<char>,
    pub degree: Seq<char>,
    pub field_of_study: Seq<char>,
}

impl View for Education {
    type V = EducationModel;

    open spec fn view(&self) -> EducationModel {
        EducationModel {
            span: self.span@,
            uni_name: self.uni_name@,
            degree: self.degree@,
            field_of_study: self.field_of_study@,
        }
    }
}

impl Clone for Education {
    fn clone(&self) -> (copy: Education)
        ensures
            copy@ == self@,
    {
        Education {
            span: self.span,
            uni_name: self.uni_name.clone(),
            degree: self.degree.clone(),
            field_of_study: self.field_of_study.clone(),
        }
    }
}

/// A period of employment.
#[derive(Debug, Hash, PartialEq, Eq)]
pub struct Experience {
    pub span: TimeSpan,
    pub employer: String,
    pub job_name: String,
    pub description: String,
}

/// Mathematical value of a period of employment.
pub struct ExperienceModel {
    pub span: TimeSpanModel,
    pub employer: Seq<char>,
    pub job_name: Seq<char>,
    pub description: Seq<char>,
}

impl View for Experience {
    type V = ExperienceModel;

    open spec fn view(&self) -> ExperienceModel {
        ExperienceModel {
            span: self.span@,
            employer: self.employer@,
            job_name: self.job_name@,
            description: self.description@,
        }
    }
}

impl Clone for Experience {
    fn clone(&self) -> (copy: Experience)
        ensures
            copy@ == self@,
    {
        Experience {
            span: self.span,
            employer: self.employer.clone(),
            job_name: self.job_name.clone(),
            description: self.description.clone(),
        }
    }
}

/// Name, date of birth and contacts of the person that a CV describes. It
/// always holds at least one contact.
#[derive(Debug, PartialEq)]
pub struct BasicInfo {
    name: String,
    surname: String,
    dob: Option<Date>,
    contacts: Vec<Contact>,
}

/// Mathematical value of a `BasicInfo`.
pub struct BasicInfoModel {
    pub name: Seq<char>,
    pub surname: Seq<char>,
    pub dob: Option<DateModel>,
    pub contacts: Seq<ContactModel>,
}

impl BasicInfoModel {
    /// There is at least one contact.
    pub open spec fn wf(self) -> bool {
        self.contacts.len() > 0
    }
}

/// The values of a sequence of contacts, in the same order.
pub open spec fn contact_models(contacts: Seq<Contact>) -> Seq<ContactModel> {
    contacts.map_values(|contact: Contact| contact@)
}

/// The value of an optional date.
pub open spec fn date_model(date: Option<Date>) -> Option<DateModel> {
    match date {
        Some(date) => Some(date@),
        None => None,
    }
}

impl View for BasicInfo {
    type V = BasicInfoModel;

    closed spec fn view(&self) -> BasicInfoModel {
        BasicInfoModel {
            name: self.name@,
            surname: self.surname@,
            dob: date_model(self.dob),
            contacts: contact_models(self.contacts@),
        }
    }
}

/// Copies a list of contacts.
pub fn clone_contacts(contacts: &Vec<Contact>) -> (copy: Vec<Contact>)
    ensures
        contact_models(copy@) == contact_models(contacts@),
{
    let mut copy: Vec<Contact> = Vec::new();
    let mut i: usize = 0;
    while i < contacts.len()
        invariant
            i <= contacts.len(),
            copy@.len() == i,
            forall|k: int| 0 <= k < i ==> copy@[k]@ == contacts@[k]@,
        decreases contacts.len() - i,
    {
        copy.push(contacts[i].clone());
        i += 1;
    }
    assert(contact_models(copy@) =~= contact_models(contacts@));
    copy
}

impl Clone for BasicInfo {
    fn clone(&self) -> (copy: BasicInfo)
        ensures
            copy@ == self@,
    {
        proof {
            use_type_invariant(self);
        }
        let contacts = clone_contacts(&self.contacts);
        assert(contact_models(contacts@).len() == contacts@.len());
        assert(contact_models(self.contacts@).len() == self.contacts@.len());
        BasicInfo {
            name: self.name.clone(),
            surname: self.surname.clone(),
            dob: self.dob,
            contacts,
        }
    }
}

impl BasicInfo {
    #[verifier::type_invariant]
    spec fn inv(self) -> bool {
        self.contacts@.len() > 0
    }

    /// The contacts, as they were given.
    pub closed spec fn spec_contacts(&self) -> Seq<Contact> {
        self.contacts@
    }

    /// Builds the record. At least one contact is needed: an empty list is
    /// refused, and then nothing is built.
    pub fn new(name: &str, surname: &str, dob: Date, contacts: Vec<Contact>) -> (info: Result<
        BasicInfo,
        ValidationError,
    >)
        ensures
            contacts@.len() > 0 ==> info is Ok && info.unwrap().spec_contacts() == contacts@
                && info.unwrap()@ == (BasicInfoModel {
                name: name@,
                surname: surname@,
                dob: Some(dob@),
                contacts: contact_models(contacts@),
            }),
            contacts@.len() == 0 ==> info == Err::<BasicInfo, ValidationError>(
                ValidationError::EmptyContacts,
            ),
    {
        if contacts.len() == 0 {
            return Err(ValidationError::EmptyContacts);
        }
        Ok(
            BasicInfo {
                name: String::from_str(name),
                surname: String::from_str(surname),
                dob: Some(dob),
                contacts,
            },
        )
    }

    /// Builds the record from parts that may lack the date of birth. An
    /// empty list of contacts is refused.
    pub fn from_parts(name: String, surname: String, dob: Option<Date>, contacts: Vec<Contact>) -> (info:
        Result<BasicInfo, ValidationError>)
        ensures
            contacts@.len() > 0 ==> info is Ok && info.unwrap().spec_contacts() == contacts@
                && info.unwrap()@ == (BasicInfoModel {
                name: name@,
                surname: surname@,
                dob: date_model(dob),
                contacts: contact_models(contacts@),
            }),
            contacts@.len() == 0 ==> info == Err::<BasicInfo, ValidationError>(
                ValidationError::EmptyContacts,
            ),
    {
        if contacts.len() == 0 {
            return Err(ValidationError::EmptyContacts);
        }
        Ok(BasicInfo { name, surname, dob, contacts })
    }

    pub fn name(&self) -> (text: &str)
        ensures
            text@ == self@.name,
    {
        self.name.as_str()
    }

    pub fn surname(&self) -> (text: &str)
        ensures
            text@ == self@.surname,
    {
        self.surname.as_str()
    }

    pub fn dob(&self) -> (date: Option<Date>)
        ensures
            date_model(date) == self@.dob,
    {
        self.dob
    }

    /// The contacts in the order in which they were given; never empty.
    pub fn contacts(&self) -> (contacts: &Vec<Contact>)
        ensures
            contacts@ == self.spec_contacts(),
            contact_models(contacts@) == self@.contacts,
            contacts@.len() > 0,
            self@.wf(),
    {
        proof {
            use_type_invariant(self);
        }
        &self.contacts
    }
}


/// A curriculum vitae: who it is about, and what they studied, worked as and
/// speak.
#[derive(Debug, PartialEq)]
pub struct CV {
    /// Where the record is stored, once it has been saved.
    pub path: Option<String>,
    pub basic: BasicInfo,
    pub education: Vec<Education>,
    pub experience: Vec<Experience>,
    pub languages: Vec<Lang>,
}

/// Mathematical value of a CV.
pub struct CVModel {
    pub path: Option<Seq<char>>,
    pub basic: BasicInfoModel,
    pub education: Seq<EducationModel>,
    pub experience: Seq<ExperienceModel>,
    pub languages: Seq<LangModel>,
}

/// The value of an optional text.
pub open spec fn text_model(text: Option<String>) -> Option<Seq<char>> {
    match text {
        Some(text) => Some(text@),
        None => None,
    }
}

/// The values of a list of periods of study, in the same order.
pub open spec fn education_models(items: Seq<Education>) -> Seq<EducationModel> {
    items.map_values(|item: Education| item@)
}

/// The values of a list of periods of employment, in the same order.
pub open spec fn experience_models(items: Seq<Experience>) -> Seq<ExperienceModel> {
    items.map_values(|item: Experience| item@)
}

/// The values of a list of language entries, in the same order.
pub open spec fn lang_models(items: Seq<Lang>) -> Seq<LangModel> {
    items.map_values(|item: Lang| item@)
}

impl View for CV {
    type V = CVModel;

    open spec fn view(&self) -> CVModel {
        CVModel {
            path: text_model(self.path),
            basic: self.basic@,
            education: education_models(self.education@),
            experience: experience_models(self.experience@),
            languages: lang_models(self.languages@),
        }
    }
}

impl CV {
    /// Records where the CV is stored; nothing else changes.
    pub fn set_path(&mut self, path: &str)
        ensures
            final(self)@ == (CVModel { path: Some(path@), ..old(self)@ }),
    {
        self.path = Some(String::from_str(path));
    }
}

/// Copies a list of periods of study.
pub fn clone_education(items: &Vec<Education>) -> (copy: Vec<Education>)
    ensures
        education_models(copy@) == education_models(items@),
{
    let mut copy: Vec<Education> = Vec::new();
    let mut i: usize = 0;
    while i < items.len()
        invariant
            i <= items.len(),
            copy@.len() == i,
            forall|k: int| 0 <= k < i ==> copy@[k]@ == items@[k]@,
        decreases items.len() - i,
    {
        copy.push(items[i].clone());
        i += 1;
    }
    assert(education_models(copy@) =~= education_models(items@));
    copy
}

/// Copies a list of periods of employment.
pub fn clone_experience(items: &Vec<Experience>) -> (copy: Vec<Experience>)
    ensures
        experience_models(copy@) == experience_models(items@),
{
    let mut copy: Vec<Experience> = Vec::new();
    let mut i: usize = 0;
    while i < items.len()
        invariant
            i <= items.len(),
            copy@.len() == i,
            forall|k: int| 0 <= k < i ==> copy@[k]@ == items@[k]@,
        decreases items.len() - i,
    {
        copy.push(items[i].clone());
        i += 1;
    }
    assert(experience_models(copy@) =~= experience_models(items@));
    copy
}

/// Copies a list of language entries.
pub fn clone_languages(items: &Vec<Lang>) -> (copy: Vec<Lang>)
    ensures
        lang_models(copy@) == lang_models(items@),
{
    let mut copy: Vec<Lang> = Vec::new();
    let mut i: usize = 0;
    while i < items.len()
        invariant
            i <= items.len(),
            copy@.len() == i,
            forall|k: int| 0 <= k < i ==> copy@[k]@ == items@[k]@,
        decreases items.len() - i,
    {
        copy.push(items[i].clone());
        i += 1;
    }
    assert(lang_models(copy@) =~= lang_models(items@));
    copy
}

/// Copies an optional text.
pub fn clone_text(text: &Option<String>) -> (copy: Option<String>)
    ensures
        text_model(copy) == text_model(*text),
{
    match text {
        Some(text) => Some(text.clone()),
        None => None,
    }
}

/// Collects the parts of a `BasicInfo` one by one and builds it once they
/// are complete.
#[derive(Debug)]
pub struct BasicInfoBuilder {
    pub name: Option<String>,
    pub surname: Option<String>,
    pub dob: Option<Option<Date>>,
    pub contacts: Option<Vec<Contact>>,
}

impl BasicInfoBuilder {
    /// Whether at least one contact has been given.
    pub open spec fn has_contacts(&self) -> bool {
        self.contacts is Some && self.contacts.unwrap()@.len() > 0
    }

    /// Whether every part has been given.
    pub open spec fn is_complete(&self) -> bool {
        self.name is Some && self.surname is Some && self.dob is Some
    }

    /// A builder with no part set.
    pub fn default() -> (builder: BasicInfoBuilder)
        ensures
            builder.name is None,
            builder.surname is None,
            builder.dob is None,
            builder.contacts is None,
    {
        BasicInfoBuilder { name: None, surname: None, dob: None, contacts: None }
    }

    /// Sets the name.
    pub fn name(self, name: String) -> (builder: BasicInfoBuilder)
        ensures
            builder == (BasicInfoBuilder { name: Some(name), ..self }),
    {
        BasicInfoBuilder { name: Some(name), ..self }
    }

    /// Sets the surname.
    pub fn surname(self, surname: String) -> (builder: BasicInfoBuilder)
        ensures
            builder == (BasicInfoBuilder { surname: Some(surname), ..self }),
    {
        BasicInfoBuilder { surname: Some(surname), ..self }
    }

    /// Sets the date of birth.
    pub fn dob(self, dob: Option<Date>) -> (builder: BasicInfoBuilder)
        ensures
            builder == (BasicInfoBuilder { dob: Some(dob), ..self }),
    {
        BasicInfoBuilder { dob: Some(dob), ..self }
    }

    /// Sets the contacts.
    pub fn contacts(self, contacts: Vec<Contact>) -> (builder: BasicInfoBuilder)
        ensures
            builder == (BasicInfoBuilder { contacts: Some(contacts), ..self }),
    {
        BasicInfoBuilder { contacts: Some(contacts), ..self }
    }

    /// Checks that there is at least one contact.
    pub fn validate(&self) -> (verdict: Result<(), ValidationError>)
        ensures
            self.has_contacts() ==> verdict == Ok::<(), ValidationError>(()),
            !self.has_contacts() ==> verdict == Err::<(), ValidationError>(
                ValidationError::EmptyContacts,
            ),
    {
        match &self.contacts {
            None => Err(ValidationError::EmptyContacts),
            Some(contacts) => {
                if contacts.len() == 0 {
                    return Err(ValidationError::EmptyContacts);
                }
                Ok(())
            },
        }
    }

    /// Builds the record from copies of the parts. The contacts are checked
    /// first: without one, nothing is built. The builder is left as it is.
    pub fn build(&self) -> (info: Result<BasicInfo, ValidationError>)
        ensures
            !self.has_contacts() ==> info == Err::<BasicInfo, ValidationError>(
                ValidationError::EmptyContacts,
            ),
            self.has_contacts() && !self.is_complete() ==> info == Err::<
                BasicInfo,
                ValidationError,
            >(ValidationError::MissingField),
            self.has_contacts() && self.is_complete() ==> info is Ok && info.unwrap()@ == (
            BasicInfoModel {
                name: self.name.unwrap()@,
                surname: self.surname.unwrap()@,
                dob: date_model(self.dob.unwrap()),
                contacts: contact_models(self.contacts.unwrap()@),
            }),
    {
        match self.validate() {
            Err(error) => {
                return Err(error);
            },
            Ok(_) => {},
        }
        match (&self.name, &self.surname, &self.dob, &self.contacts) {
            (Some(name), Some(surname), Some(dob), Some(contacts)) => {
                let contacts = clone_contacts(contacts);
                assert(contact_models(contacts@).len() == contacts@.len());
                assert(contact_models(self.contacts.unwrap()@).len()
                    == self.contacts.unwrap()@.len());
                Ok(BasicInfo { name: name.clone(), surname: surname.clone(), dob: *dob, contacts })
            },
            _ => Err(ValidationError::MissingField),
        }
    }
}

/// Collects the parts of a CV and builds it. Only the personal data have no
/// default.
#[derive(Debug)]
pub struct CVBuilder {
    pub path: Option<String>,
    pub basic: Option<BasicInfo>,
    pub education: Vec<Education>,
    pub experience: Vec<Experience>,
    pub languages: Vec<Lang>,
}

impl CVBuilder {
    /// A builder with no personal data, no path and empty lists.
    pub fn new() -> (builder: CVBuilder)
        ensures
            builder.path is None,
            builder.basic is None,
            builder.education@.len() == 0,
            builder.experience@.len() == 0,
            builder.languages@.len() == 0,
    {
        CVBuilder {
            path: None,
            basic: None,
            education: Vec::new(),
            experience: Vec::new(),
            languages: Vec::new(),
        }
    }

    /// A builder that holds `basic`, no path and empty lists.
    pub fn default(basic: BasicInfo) -> (builder: CVBuilder)
        ensures
            builder.path is None,
            builder.basic == Some(basic),
            builder.education@.len() == 0,
            builder.experience@.len() == 0,
            builder.languages@.len() == 0,
    {
        CVBuilder {
            path: None,
            basic: Some(basic),
            education: Vec::new(),
            experience: Vec::new(),
            languages: Vec::new(),
        }
    }

    /// Sets the place where the record is stored.
    pub fn path(self, path: Option<String>) -> (builder: CVBuilder)
        ensures
            builder == (CVBuilder { path, ..self }),
    {
        CVBuilder { path, ..self }
    }

    /// Sets the personal data.
    pub fn basic(self, basic: BasicInfo) -> (builder: CVBuilder)
        ensures
            builder == (CVBuilder { basic: Some(basic), ..self }),
    {
        CVBuilder { basic: Some(basic), ..self }
    }

    /// Sets the periods of study.
    pub fn education(self, education: Vec<Education>) -> (builder: CVBuilder)
        ensures
            builder == (CVBuilder { education, ..self }),
    {
        CVBuilder { education, ..self }
    }

    /// Sets the periods of employment.
    pub fn experience(self, experience: Vec<Experience>) -> (builder: CVBuilder)
        ensures
            builder == (CVBuilder { experience, ..self }),
    {
        CVBuilder { experience, ..self }
    }

    /// Sets the language entries.
    pub fn languages(self, languages: Vec<Lang>) -> (builder: CVBuilder)
        ensures
            builder == (CVBuilder { languages, ..self }),
    {
        CVBuilder { languages, ..self }
    }

    /// The CV that the builder describes, where it holds personal data.
    pub open spec fn spec_build(&self) -> Option<CVModel> {
        match self.basic {
            Some(basic) => Some(
                CVModel {
                    path: text_model(self.path),
                    basic: basic@,
                    education: education_models(self.education@),
                    experience: experience_models(self.experience@),
                    languages: lang_models(self.languages@),
                },
            ),
            None => None,
        }
    }

    /// Builds the CV from copies of the parts, or fails where the personal
    /// data are missing. The builder is left as it is, so that building again
    /// gives an equal CV.
    pub fn build(&self) -> (cv: Result<CV, ValidationError>)
        ensures
            self.spec_build() matches Some(model) ==> cv is Ok && cv.unwrap()@ == model,
            self.spec_build() is None ==> cv == Err::<CV, ValidationError>(
                ValidationError::MissingField,
            ),
    {
        match &self.basic {
            None => Err(ValidationError::MissingField),
            Some(basic) => Ok(
                CV {
                    path: clone_text(&self.path),
                    basic: basic.clone(),
                    education: clone_education(&self.education),
                    experience: clone_experience(&self.experience),
                    languages: clone_languages(&self.languages),
                },
            ),
        }
    }
}

} // verus!
