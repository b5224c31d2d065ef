use crate::base::education_models;
use crate::base::experience_models;
use crate::base::lang_models;
use crate::base::BasicInfo;
use crate::base::CVModel;
use crate::base::Education;
use crate::base::EducationModel;
use crate::base::Experience;
use crate::base::ExperienceModel;
use crate::base::Lang;
use crate::base::LangModel;
use crate::base::Language;
use crate::base::LanguageProficiency;
use crate::base::TimeSpan;
use crate::base::TimeSpanModel;
use crate::base::ValidationError;
use crate::base::CV;
use crate::base::BasicInfoModel;
use crate::base::contact_models;
use crate::base::email_syntax_valid;
use crate::base::Contact;
use crate::base::ContactModel;
use crate::base::Date;
use crate::base::DateModel;
use crate::base::EmailAddress;
use crate::base::PhoneNumber;
use crate::base::Url;
use vstd::prelude::*;
use vstd::string::StrSliceExecFns;
use vstd::string::StringExecFns;

verus! {

/// The upper-case form that std's `char::to_uppercase` gives a character; it
/// may be longer than one character.
pub uninterp spec fn char_uppercase(c: char) -> Seq<char>;

/// Calls std's `char::to_uppercase` and collects what it yields. Trusted: the
/// result depends on the character alone.
#[verifier::external_body]
fn uppercase_of(c: char) -> (upper: String)
    ensures
        upper@ == char_uppercase(c),
{
    c.to_uppercase().collect()
}

/// The text with its first character in upper case.
pub open spec fn spec_first_uppercase(text: Seq<char>) -> Seq<char> {
    if text.len() == 0 {
        text
    } else {
        char_uppercase(text[0]) + text.subrange(1, text.len() as int)
    }
}

/// Puts the first character of a label in upper case and leaves the rest as
/// it is.
pub fn first_uppercase(s: &str) -> (label: String)
    ensures
        label@ == spec_first_uppercase(s@),
{
    let length = s.unicode_len();
    if length == 0 {
        String::from_str(s)
    } else {
        let first = uppercase_of(s.get_char(0));
        first.concat(s.substring_char(1, length))
    }
}

/// The date that the pickers of a form describe: none unless a year and a
/// month are chosen; the first of the month where no day is chosen; none
/// where the chosen day does not exist.
pub open spec fn spec_retrieve_date(year: Option<i32>, month: Option<u32>, day: Option<u32>)
    -> Option<DateModel> {
    if year is Some && month is Some {
        let chosen = DateModel {
            year: year.unwrap() as int,
            month: month.unwrap() as int,
            day: if day is Some {
                day.unwrap() as int
            } else {
                1
            },
        };
        if chosen.wf() {
            Some(chosen)
        } else {
            None
        }
    } else {
        None
    }
}

/// Reads a date off the pickers of a form.
pub fn retrieve_date(year: Option<i32>, month: Option<u32>, day: Option<u32>) -> (date: Option<
    Date,
>)
    ensures
        crate::base::date_model(date) == spec_retrieve_date(year, month, day),
{
    match (year, month) {
        (Some(year), Some(month)) => {
            let day: u32 = match day {
                Some(day) => day,
                None => 1,
            };
            Date::from_ymd(year, month, day)
        },
        _ => None,
    }
}

/// The kinds of contact that a form can collect.
pub open spec fn is_form_contact_kind(kind: Seq<char>) -> bool {
    kind == "email"@ || kind == "website"@ || kind == "phone"@
}

/// The contact that a row of the form describes, if its text is valid for
/// its kind.
pub open spec fn spec_contact_from_form(kind: Seq<char>, data: Seq<char>) -> Option<ContactModel> {
    if kind == "email"@ {
        if email_syntax_valid(data) {
            Some(ContactModel::Email(data))
        } else {
            None
        }
    } else if kind == "website"@ {
        match Url::spec_parse(data) {
            Some(url) => Some(ContactModel::Website(url)),
            None => None,
        }
    } else {
        match PhoneNumber::spec_parse(data) {
            Some(number) => Some(ContactModel::Phone(number)),
            None => None,
        }
    }
}

/// The value of an optional contact.
pub open spec fn contact_model(contact: Option<Contact>) -> Option<ContactModel> {
    match contact {
        Some(contact) => Some(contact@),
        None => None,
    }
}

/// Turns a row of the form, a kind and the text typed for it, into a
/// contact. A text that is not valid for its kind gives nothing.
pub fn contact_from_form(kind: &str, data: &str) -> (contact: Option<Contact>)
    requires
        is_form_contact_kind(kind@),
    ensures
        contact_model(contact) == spec_contact_from_form(kind@, data@),
{
    let kind = String::from_str(kind);
    if kind == String::from_str("email") {
        match EmailAddress::from(data) {
            Ok(address) => Some(Contact::Email(address)),
            Err(_) => None,
        }
    } else if kind == String::from_str("website") {
        match Url::parse(data) {
            Ok(url) => Some(Contact::Website(url)),
            Err(_) => None,
        }
    } else {
        match PhoneNumber::parse(data) {
            Ok(number) => Some(Contact::Phone(number)),
            Err(_) => None,
        }
    }
}

/// Why a form could not be turned into a CV.
#[derive(Clone, Copy, Debug, PartialEq, Eq, Structural)]
pub enum FormError {
    /// No row of the form held a valid contact.
    NoValidContact,
}

impl FormError {
    /// Human-readable text of the error.
    pub fn message(&self) -> (text: &'static str)
        ensures
            text@ == "There must be at least one valid contact filled in."@,
    {
        "There must be at least one valid contact filled in."
    }
}

/// Builds the personal data from what a form collected; a form without a
/// valid contact is refused.
pub fn collect_basic_info(name: &str, surname: &str, dob: Date, contacts: Vec<Contact>) -> (info:
    Result<BasicInfo, FormError>)
    ensures
        contacts@.len() == 0 ==> info == Err::<BasicInfo, FormError>(FormError::NoValidContact),
        contacts@.len() > 0 ==> info is Ok && info.unwrap()@ == (BasicInfoModel {
            name: name@,
            surname: surname@,
            dob: Some(dob@),
            contacts: contact_models(contacts@),
        }),
{
    match BasicInfo::new(name, surname, dob, contacts) {
        Ok(info) => Ok(info),
        Err(_) => Err(FormError::NoValidContact),
    }
}

/// The period of employment that a row of the form describes: nothing where
/// a field is missing.
pub open spec fn spec_experience_from_form(
    from: Option<Date>,
    to: Option<Date>,
    employer: Option<String>,
    job_name: Option<String>,
    description: Option<String>,
) -> Option<ExperienceModel> {
    if from is Some && to is Some && employer is Some && job_name is Some && description is Some {
        Some(
            ExperienceModel {
                span: TimeSpanModel { from: from.unwrap()@, to: to.unwrap()@ },
                employer: employer.unwrap()@,
                job_name: job_name.unwrap()@,
                description: description.unwrap()@,
            },
        )
    } else {
        None
    }
}

/// The value of an optional period of employment.
pub open spec fn experience_model(item: Option<Experience>) -> Option<ExperienceModel> {
    match item {
        Some(item) => Some(item@),
        None => None,
    }
}

/// Turns a row of the form into a period of employment. A row with a
/// missing field gives nothing; a row whose dates are reversed is an error.
pub fn experience_from_form(
    from: Option<Date>,
    to: Option<Date>,
    employer: Option<String>,
    job_name: Option<String>,
    description: Option<String>,
) -> (item: Result<Option<Experience>, ValidationError>)
    ensures
        match spec_experience_from_form(from, to, employer, job_name, description) {
            Some(model) => if model.span.ordered() {
                item is Ok && experience_model(item.unwrap()) == Some(model)
            } else {
                item == Err::<Option<Experience>, ValidationError>(ValidationError::InvalidTimeSpan)
            },
            None => item is Ok && item.unwrap() is None,
        },
{
    match (from, to, employer, job_name, description) {
        (Some(from), Some(to), Some(employer), Some(job_name), Some(description)) => {
            match TimeSpan::new(from, to) {
                Ok(span) => Ok(Some(Experience { span, employer, job_name, description })),
                Err(error) => Err(error),
            }
        },
        _ => Ok(None),
    }
}

/// The period of study that a row of the form describes: nothing where a
/// field is missing.
pub open spec fn spec_education_from_form(
    from: Option<Date>,
    to: Option<Date>,
    uni_name: Option<String>,
    degree: Option<String>,
    field_of_study: Option<String>,
) -> Option<EducationModel> {
    if from is Some && to is Some && uni_name is Some && degree is Some && field_of_study is Some {
        Some(
            EducationModel {
                span: TimeSpanModel { from: from.unwrap()@, to: to.unwrap()@ },
                uni_name: uni_name.unwrap()@,
                degree: degree.unwrap()@,
                field_of_study: field_of_study.unwrap()@,
            },
        )
    } else {
        None
    }
}

/// The value of an optional period of study.
pub open spec fn education_model(item: Option<Education>) -> Option<EducationModel> {
    match item {
        Some(item) => Some(item@),
        None => None,
    }
}

/// Turns a row of the form into a period of study. A row with a missing
/// field gives nothing; a row whose dates are reversed is an error.
pub fn education_from_form(
    from: Option<Date>,
    to: Option<Date>,
    uni_name: Option<String>,
    degree: Option<String>,
    field_of_study: Option<String>,
) -> (item: Result<Option<Education>, ValidationError>)
    ensures
        match spec_education_from_form(from, to, uni_name, degree, field_of_study) {
            Some(model) => if model.span.ordered() {
                item is Ok && education_model(item.unwrap()) == Some(model)
            } else {
                item == Err::<Option<Education>, ValidationError>(ValidationError::InvalidTimeSpan)
            },
            None => item is Ok && item.unwrap() is None,
        },
{
    match (from, to, uni_name, degree, field_of_study) {
        (Some(from), Some(to), Some(uni_name), Some(degree), Some(field_of_study)) => {
            match TimeSpan::new(from, to) {
                Ok(span) => Ok(Some(Education { span, uni_name, degree, field_of_study })),
                Err(error) => Err(error),
            }
        },
        _ => Ok(None),
    }
}

/// Turns a row of the form into a language entry; a row with a missing
/// field gives nothing.
pub fn lang_from_form(
    language: Option<Language>,
    proficiency: Option<LanguageProficiency>,
    notes: Option<String>,
) -> (item: Option<Lang>)
    ensures
        item is Some <==> language is Some && proficiency is Some && notes is Some,
        item is Some ==> item.unwrap()@ == (LangModel {
            language: language.unwrap(),
            proficiency: proficiency.unwrap(),
            notes: notes.unwrap()@,
        }),
{
    match (language, proficiency, notes) {
        (Some(language), Some(proficiency), Some(notes)) => Some(
            Lang { language, proficiency, notes },
        ),
        _ => None,
    }
}

/// Puts together the CV that a form describes, without a path; where the
/// personal data were refused, hands on why.
pub fn collect_form_data(
    basic: Result<BasicInfo, FormError>,
    experience: Vec<Experience>,
    education: Vec<Education>,
    languages: Vec<Lang>,
) -> (cv: Result<CV, FormError>)
    ensures
        basic is Err ==> cv == Err::<CV, FormError>(basic.unwrap_err()),
        basic is Ok ==> cv is Ok && cv.unwrap()@ == (CVModel {
            path: None,
            basic: basic.unwrap()@,
            education: education_models(education@),
            experience: experience_models(experience@),
            languages: lang_models(languages@),
        }),
{
    match basic {
        Ok(basic) => Ok(CV { path: None, basic, education, experience, languages }),
        Err(error) => Err(error),
    }
}

} // verus!
