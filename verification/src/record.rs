use crate::base::contact_models;
use crate::base::education_models;
use crate::base::email_syntax_valid;
use crate::base::experience_models;
use crate::base::lang_models;
use crate::base::text_model;
use crate::base::Address;
use crate::base::AddressModel;
use crate::base::BasicInfo;
use crate::base::BasicInfoModel;
use crate::base::CVModel;
use crate::base::Contact;
use crate::base::ContactModel;
use crate::base::Date;
use crate::base::DateModel;
use crate::base::Education;
use crate::base::EducationModel;
use crate::base::EmailAddress;
use crate::base::Experience;
use crate::base::ExperienceModel;
use crate::base::Lang;
use crate::base::PhoneNumber;
use crate::base::TimeSpan;
use crate::base::TimeSpanModel;
use crate::base::Url;
use crate::base::ValidationError;
use crate::base::CV;
use crate::base::clone_languages;
use crate::base::clone_text;
use vstd::prelude::*;

verus! {

/// A date as it is stored: three numbers that need not name a day.
#[derive(Clone, Copy, Debug, PartialEq, Eq, Structural)]
pub struct DateRecord {
    pub year: i32,
    pub month: u32,
    pub day: u32,
}

impl View for DateRecord {
    type V = DateModel;

    open spec fn view(&self) -> DateModel {
        DateModel { year: self.year as int, month: self.month as int, day: self.day as int }
    }
}

/// A time span as it is stored.
#[derive(Clone, Copy, Debug, PartialEq, Eq, Structural)]
pub struct TimeSpanRecord {
    pub from: DateRecord,
    pub to: DateRecord,
}

impl View for TimeSpanRecord {
    type V = TimeSpanModel;

    open spec fn view(&self) -> TimeSpanModel {
        TimeSpanModel { from: self.from@, to: self.to@ }
    }
}

/// A postal address as it is stored.
#[derive(Debug, PartialEq, Eq)]
pub struct AddressRecord {
    pub street: String,
    pub street_subunit: u32,
    pub postal_code: u32,
    pub country: String,
}

impl View for AddressRecord {
    type V = AddressModel;

    open spec fn view(&self) -> AddressModel {
        AddressModel {
            street: self.street@,
            street_subunit: self.street_subunit as nat,
            postal_code: self.postal_code as nat,
            country: self.country@,
        }
    }
}

/// A contact as it is stored: its kind and a payload that has not been
/// checked.
#[derive(Debug, PartialEq, Eq)]
pub enum ContactRecord {
    Email(String),
    Website(String),
    Address(AddressRecord),
    Phone(String),
}

impl View for ContactRecord {
    type V = ContactModel;

    open spec fn view(&self) -> ContactModel {
        match self {
            ContactRecord::Email(address) => ContactModel::Email(address@),
            ContactRecord::Website(url) => ContactModel::Website(url@),
            ContactRecord::Address(address) => ContactModel::Address(address@),
            ContactRecord::Phone(number) => ContactModel::Phone(number@),
        }
    }
}

/// Personal data as they are stored.
#[derive(Debug, PartialEq, Eq)]
pub struct BasicInfoRecord {
    pub name: String,
    pub surname: String,
    pub dob: Option<DateRecord>,
    pub contacts: Vec<ContactRecord>,
}

/// A period of study as it is stored.
#[derive(Debug, PartialEq, Eq)]
pub struct EducationRecord {
    pub span: TimeSpanRecord,
    pub uni_name: String,
    pub degree: String,
    pub field_of_study: String,
}

impl View for EducationRecord {
    type V = EducationModel;

    open spec fn view(&self) -> EducationModel {
        EducationModel {
            span: self.span@,
            uni_name: self.uni_name@,
            degree: self.degree@,
            field_of_study: self.field_of_study@,
        }
    }
}

/// A period of employment as it is stored.
#[derive(Debug, PartialEq, Eq)]
pub struct ExperienceRecord {
    pub span: TimeSpanRecord,
    pub employer: String,
    pub job_name: String,
    pub description: String,
}

impl View for ExperienceRecord {
    type V = ExperienceModel;

    open spec fn view(&self) -> ExperienceModel {
        ExperienceModel {
            span: self.span@,
            employer: self.employer@,
            job_name: self.job_name@,
            description: self.description@,
        }
    }
}

/// A CV as it is stored: the same fields, none of them checked.
#[derive(Debug, PartialEq, Eq)]
pub struct CvRecord {
    pub path: Option<String>,
    pub basic: BasicInfoRecord,
    pub education: Vec<EducationRecord>,
    pub experience: Vec<ExperienceRecord>,
    pub languages: Vec<Lang>,
}

/// The value of an optional stored date.
pub open spec fn date_record_model(date: Option<DateRecord>) -> Option<DateModel> {
    match date {
        Some(date) => Some(date@),
        None => None,
    }
}

/// The values of a list of stored contacts, in the same order.
pub open spec fn contact_record_models(items: Seq<ContactRecord>) -> Seq<ContactModel> {
    items.map_values(|item: ContactRecord| item@)
}

/// The values of a list of stored periods of study, in the same order.
pub open spec fn education_record_models(items: Seq<EducationRecord>) -> Seq<EducationModel> {
    items.map_values(|item: EducationRecord| item@)
}

/// The values of a list of stored periods of employment, in the same order.
pub open spec fn experience_record_models(items: Seq<ExperienceRecord>) -> Seq<ExperienceModel> {
    items.map_values(|item: ExperienceRecord| item@)
}

impl View for BasicInfoRecord {
    type V = BasicInfoModel;

    open spec fn view(&self) -> BasicInfoModel {
        BasicInfoModel {
            name: self.name@,
            surname: self.surname@,
            dob: date_record_model(self.dob),
            contacts: contact_record_models(self.contacts@),
        }
    }
}

impl View for CvRecord {
    type V = CVModel;

    open spec fn view(&self) -> CVModel {
        CVModel {
            path: text_model(self.path),
            basic: self.basic@,
            education: education_record_models(self.education@),
            experience: experience_record_models(self.experience@),
            languages: lang_models(self.languages@),
        }
    }
}

/// What is wrong with a stored date, if anything.
pub open spec fn date_error(date: DateModel) -> Option<ValidationError> {
    if date.wf() {
        None
    } else {
        Some(ValidationError::InvalidDate)
    }
}

/// What is wrong with a stored time span, if anything: its first day, then
/// its last day, then their order.
pub open spec fn span_error(span: TimeSpanModel) -> Option<ValidationError> {
    if !span.from.wf() || !span.to.wf() {
        Some(ValidationError::InvalidDate)
    } else if !span.ordered() {
        Some(ValidationError::InvalidTimeSpan)
    } else {
        None
    }
}

/// What is wrong with a stored contact, if anything.
pub open spec fn contact_error(contact: ContactModel) -> Option<ValidationError> {
    match contact {
        ContactModel::Email(address) => if email_syntax_valid(address) {
            None
        } else {
            Some(ValidationError::InvalidEmail)
        },
        ContactModel::Website(url) => if Url::spec_parse(url) is Some {
            None
        } else {
            Some(ValidationError::InvalidUrl)
        },
        ContactModel::Address(address) => if address.wf() {
            None
        } else {
            Some(ValidationError::InvalidCountry)
        },
        ContactModel::Phone(number) => if PhoneNumber::spec_parse(number) is Some {
            None
        } else {
            Some(ValidationError::InvalidPhone)
        },
    }
}

/// The contact that a stored contact is read as: a URL or a phone number in
/// its canonical form, anything else as it is.
pub open spec fn contact_normal(contact: ContactModel) -> ContactModel {
    match contact {
        ContactModel::Website(url) => match Url::spec_parse(url) {
            Some(canonical) => ContactModel::Website(canonical),
            None => contact,
        },
        ContactModel::Phone(number) => match PhoneNumber::spec_parse(number) {
            Some(canonical) => ContactModel::Phone(canonical),
            None => contact,
        },
        _ => contact,
    }
}

/// What is wrong with the first stored contact that is not valid, if any.
pub open spec fn first_contact_error(contacts: Seq<ContactModel>) -> Option<ValidationError>
    decreases contacts.len(),
{
    if contacts.len() == 0 {
        None
    } else if contact_error(contacts[0]) is Some {
        contact_error(contacts[0])
    } else {
        first_contact_error(contacts.drop_first())
    }
}

/// What is wrong with the first stored time span that is not valid, if any.
pub open spec fn first_span_error(spans: Seq<TimeSpanModel>) -> Option<ValidationError>
    decreases spans.len(),
{
    if spans.len() == 0 {
        None
    } else if span_error(spans[0]) is Some {
        span_error(spans[0])
    } else {
        first_span_error(spans.drop_first())
    }
}

/// The time spans of a list of periods of study.
pub open spec fn education_spans(items: Seq<EducationModel>) -> Seq<TimeSpanModel> {
    items.map_values(|item: EducationModel| item.span)
}

/// The time spans of a list of periods of employment.
pub open spec fn experience_spans(items: Seq<ExperienceModel>) -> Seq<TimeSpanModel> {
    items.map_values(|item: ExperienceModel| item.span)
}

/// What is wrong with stored personal data, if anything: the date of birth,
/// then the contacts in their order, then their number.
pub open spec fn basic_error(basic: BasicInfoModel) -> Option<ValidationError> {
    if basic.dob is Some && !basic.dob.unwrap().wf() {
        Some(ValidationError::InvalidDate)
    } else if first_contact_error(basic.contacts) is Some {
        first_contact_error(basic.contacts)
    } else if basic.contacts.len() == 0 {
        Some(ValidationError::EmptyContacts)
    } else {
        None
    }
}

/// The personal data that stored personal data are read as.
pub open spec fn basic_normal(basic: BasicInfoModel) -> BasicInfoModel {
    BasicInfoModel {
        contacts: basic.contacts.map_values(|contact: ContactModel| contact_normal(contact)),
        ..basic
    }
}

/// What is wrong with a stored CV, if anything: the personal data, then the
/// periods of study, then the periods of employment.
pub open spec fn cv_error(cv: CVModel) -> Option<ValidationError> {
    if basic_error(cv.basic) is Some {
        basic_error(cv.basic)
    } else if first_span_error(education_spans(cv.education)) is Some {
        first_span_error(education_spans(cv.education))
    } else {
        first_span_error(experience_spans(cv.experience))
    }
}

/// What a stored CV is read as: the first thing that is wrong with it, or
/// the CV with its URLs and phone numbers in canonical form.
pub open spec fn spec_decode(cv: CVModel) -> Result<CVModel, ValidationError> {
    match cv_error(cv) {
        Some(error) => Err(error),
        None => Ok(CVModel { basic: basic_normal(cv.basic), ..cv }),
    }
}

/// The value of personal data is valid: the date of birth exists, there is
/// a contact, and every contact is valid and canonical.
pub open spec fn basic_valid(basic: BasicInfoModel) -> bool {
    &&& basic.dob is Some ==> basic.dob.unwrap().wf()
    &&& basic.contacts.len() > 0
    &&& forall|i: int| 0 <= i < basic.contacts.len() ==> (#[trigger] basic.contacts[i]).wf()
}

/// A CV's value is valid: its personal data are, the dates exist and the
/// time spans are ordered.
pub open spec fn cv_valid(cv: CVModel) -> bool {
    &&& basic_valid(cv.basic)
    &&& forall|i: int| 0 <= i < cv.education.len() ==> (#[trigger] cv.education[i]).span.wf()
    &&& forall|i: int| 0 <= i < cv.experience.len() ==> (#[trigger] cv.experience[i]).span.wf()
}

/// Contacts that are all valid hold no error.
pub proof fn lemma_valid_contacts_pass(contacts: Seq<ContactModel>)
    requires
        forall|i: int| 0 <= i < contacts.len() ==> (#[trigger] contacts[i]).wf(),
    ensures
        first_contact_error(contacts) is None,
        contacts.map_values(|contact: ContactModel| contact_normal(contact)) == contacts,
    decreases contacts.len(),
{
    if contacts.len() > 0 {
        assert(contacts[0].wf());
        let rest = contacts.drop_first();
        assert forall|i: int| 0 <= i < rest.len() implies (#[trigger] rest[i]).wf() by {
            assert(rest[i] == contacts[i + 1]);
        }
        lemma_valid_contacts_pass(rest);
    }
    assert forall|i: int| 0 <= i < contacts.len() implies contact_normal(contacts[i])
        == contacts[i] by {
        assert(contacts[i].wf());
    }
    assert(contacts.map_values(|contact: ContactModel| contact_normal(contact)) =~= contacts);
}

/// Time spans that are all valid hold no error.
pub proof fn lemma_valid_spans_pass(spans: Seq<TimeSpanModel>)
    requires
        forall|i: int| 0 <= i < spans.len() ==> (#[trigger] spans[i]).wf(),
    ensures
        first_span_error(spans) is None,
    decreases spans.len(),
{
    if spans.len() > 0 {
        assert(spans[0].wf());
        let rest = spans.drop_first();
        assert forall|i: int| 0 <= i < rest.len() implies (#[trigger] rest[i]).wf() by {
            assert(rest[i] == spans[i + 1]);
        }
        lemma_valid_spans_pass(rest);
    }
}

/// Storing a valid CV and reading it back gives the CV again: nothing is
/// refused, and nothing changes, canonical forms included.
pub proof fn lemma_record_round_trip(cv: CVModel)
    requires
        cv_valid(cv),
    ensures
        spec_decode(cv) == Ok::<CVModel, ValidationError>(cv),
{
    lemma_valid_contacts_pass(cv.basic.contacts);
    let education = education_spans(cv.education);
    assert forall|i: int| 0 <= i < education.len() implies (#[trigger] education[i]).wf() by {
        assert(cv.education[i].span.wf());
    }
    lemma_valid_spans_pass(education);
    let experience = experience_spans(cv.experience);
    assert forall|i: int| 0 <= i < experience.len() implies (#[trigger] experience[i]).wf() by {
        assert(cv.experience[i].span.wf());
    }
    lemma_valid_spans_pass(experience);
    assert(basic_normal(cv.basic) == cv.basic);
}

/// The stored form of a date.
pub fn date_to_record(date: &Date) -> (record: DateRecord)
    ensures
        record@ == date@,
        record@.wf(),
{
    DateRecord { year: date.year(), month: date.month(), day: date.day() }
}

/// Reads a stored date; numbers that name no day are refused.
pub fn date_from_record(record: &DateRecord) -> (date: Result<Date, ValidationError>)
    ensures
        date_error(record@) matches Some(error) ==> date == Err::<Date, ValidationError>(error),
        date_error(record@) is None ==> date is Ok && date.unwrap()@ == record@,
{
    match Date::from_ymd(record.year, record.month, record.day) {
        Some(date) => Ok(date),
        None => Err(ValidationError::InvalidDate),
    }
}

/// The stored form of a time span.
pub fn span_to_record(span: &TimeSpan) -> (record: TimeSpanRecord)
    ensures
        record@ == span@,
        record@.wf(),
{
    let from = span.from();
    let to = span.to();
    TimeSpanRecord { from: date_to_record(&from), to: date_to_record(&to) }
}

/// Reads a stored time span; a day that does not exist or a span that ends
/// before it starts is refused.
pub fn span_from_record(record: &TimeSpanRecord) -> (span: Result<TimeSpan, ValidationError>)
    ensures
        span_error(record@) matches Some(error) ==> span == Err::<TimeSpan, ValidationError>(
            error,
        ),
        span_error(record@) is None ==> span is Ok && span.unwrap()@ == record@,
{
    let from = match date_from_record(&record.from) {
        Ok(date) => date,
        Err(error) => {
            return Err(error);
        },
    };
    let to = match date_from_record(&record.to) {
        Ok(date) => date,
        Err(error) => {
            return Err(error);
        },
    };
    TimeSpan::new(from, to)
}

/// The stored form of a contact.
pub fn contact_to_record(contact: &Contact) -> (record: ContactRecord)
    ensures
        record@ == contact@,
        record@.wf(),
{
    match contact {
        Contact::Email(address) => ContactRecord::Email(address.as_str().to_owned()),
        Contact::Website(url) => ContactRecord::Website(url.as_str().to_owned()),
        Contact::Address(address) => ContactRecord::Address(
            AddressRecord {
                street: address.street().to_owned(),
                street_subunit: address.street_subunit(),
                postal_code: address.postal_code(),
                country: address.country().to_owned(),
            },
        ),
        Contact::Phone(number) => ContactRecord::Phone(number.as_str().to_owned()),
    }
}

/// Reads a stored contact: checks its payload and puts it in canonical form.
pub fn contact_from_record(record: &ContactRecord) -> (contact: Result<Contact, ValidationError>)
    ensures
        contact_error(record@) matches Some(error) ==> contact == Err::<Contact, ValidationError>(
            error,
        ),
        contact_error(record@) is None ==> contact is Ok && contact.unwrap()@ == contact_normal(
            record@,
        ),
{
    match record {
        ContactRecord::Email(address) => match EmailAddress::from(address.as_str()) {
            Ok(address) => Ok(Contact::Email(address)),
            Err(error) => Err(error),
        },
        ContactRecord::Website(url) => match Url::parse(url.as_str()) {
            Ok(url) => Ok(Contact::Website(url)),
            Err(error) => Err(error),
        },
        ContactRecord::Address(address) => match Address::new(
            address.street.as_str(),
            address.street_subunit,
            address.postal_code,
            address.country.as_str(),
        ) {
            Ok(address) => Ok(Contact::Address(address)),
            Err(error) => Err(error),
        },
        ContactRecord::Phone(number) => match PhoneNumber::parse(number.as_str()) {
            Ok(number) => Ok(Contact::Phone(number)),
            Err(error) => Err(error),
        },
    }
}

/// The stored form of personal data.
pub fn basic_to_record(basic: &BasicInfo) -> (record: BasicInfoRecord)
    ensures
        record@ == basic@,
        basic_valid(record@),
        basic_error(record@) is None,
        basic_normal(record@) == record@,
{
    let contacts = basic.contacts();
    let mut records: Vec<ContactRecord> = Vec::new();
    let mut i: usize = 0;
    while i < contacts.len()
        invariant
            i <= contacts.len(),
            records@.len() == i,
            forall|k: int| 0 <= k < i ==> (#[trigger] records@[k])@ == contacts@[k]@,
            forall|k: int| 0 <= k < i ==> (#[trigger] records@[k])@.wf(),
        decreases contacts.len() - i,
    {
        records.push(contact_to_record(&contacts[i]));
        i += 1;
    }
    let dob = match basic.dob() {
        Some(date) => Some(date_to_record(&date)),
        None => None,
    };
    let record = BasicInfoRecord {
        name: basic.name().to_owned(),
        surname: basic.surname().to_owned(),
        dob,
        contacts: records,
    };
    proof {
        assert(contact_record_models(records@) =~= contact_models(contacts@));
        let models = record@.contacts;
        assert forall|k: int| 0 <= k < models.len() implies (#[trigger] models[k]).wf() by {
            assert(records@[k]@.wf());
        }
        lemma_valid_contacts_pass(models);
    }
    record
}

/// Reads stored contacts in their order, up to the first that is refused.
pub fn contacts_from_records(records: &Vec<ContactRecord>) -> (contacts: Result<
    Vec<Contact>,
    ValidationError,
>)
    ensures
        first_contact_error(contact_record_models(records@)) matches Some(error) ==> contacts
            == Err::<Vec<Contact>, ValidationError>(error),
        first_contact_error(contact_record_models(records@)) is None ==> contacts is Ok
            && contact_models(contacts.unwrap()@) == contact_record_models(records@).map_values(
            |contact: ContactModel| contact_normal(contact),
        ),
{
    let ghost models = contact_record_models(records@);
    let mut contacts: Vec<Contact> = Vec::new();
    let mut i: usize = 0;
    assert(models.skip(0) =~= models);
    while i < records.len()
        invariant
            i <= records.len(),
            models == contact_record_models(records@),
            contacts@.len() == i,
            first_contact_error(models) == first_contact_error(models.skip(i as int)),
            forall|k: int| 0 <= k < i ==> (#[trigger] contacts@[k])@ == contact_normal(models[k]),
        decreases records.len() - i,
    {
        proof {
            assert(models.skip(i as int)[0] == models[i as int]);
            assert(models.skip(i as int).drop_first() =~= models.skip(i + 1));
            assert(models[i as int] == records@[i as int]@);
        }
        match contact_from_record(&records[i]) {
            Ok(contact) => {
                contacts.push(contact);
            },
            Err(error) => {
                return Err(error);
            },
        }
        i += 1;
    }
    proof {
        assert(models.skip(i as int).len() == 0);
        assert(contact_models(contacts@) =~= models.map_values(
            |contact: ContactModel| contact_normal(contact),
        ));
    }
    Ok(contacts)
}

/// Reads stored personal data: the date of birth, then the contacts.
pub fn basic_from_record(record: &BasicInfoRecord) -> (basic: Result<BasicInfo, ValidationError>)
    ensures
        basic_error(record@) matches Some(error) ==> basic == Err::<BasicInfo, ValidationError>(
            error,
        ),
        basic_error(record@) is None ==> basic is Ok && basic.unwrap()@ == basic_normal(record@),
{
    let dob = match &record.dob {
        Some(date) => match date_from_record(date) {
            Ok(date) => Some(date),
            Err(error) => {
                return Err(error);
            },
        },
        None => None,
    };
    let contacts = match contacts_from_records(&record.contacts) {
        Ok(contacts) => contacts,
        Err(error) => {
            return Err(error);
        },
    };
    proof {
        assert(contact_models(contacts@).len() == contacts@.len());
    }
    BasicInfo::from_parts(record.name.clone(), record.surname.clone(), dob, contacts)
}

/// The stored form of a period of study.
pub fn education_to_record(item: &Education) -> (record: EducationRecord)
    ensures
        record@ == item@,
        record@.span.wf(),
{
    EducationRecord {
        span: span_to_record(&item.span),
        uni_name: item.uni_name.clone(),
        degree: item.degree.clone(),
        field_of_study: item.field_of_study.clone(),
    }
}

/// Reads a stored period of study.
pub fn education_from_record(record: &EducationRecord) -> (item: Result<
    Education,
    ValidationError,
>)
    ensures
        span_error(record@.span) matches Some(error) ==> item == Err::<
            Education,
            ValidationError,
        >(error),
        span_error(record@.span) is None ==> item is Ok && item.unwrap()@ == record@,
{
    match span_from_record(&record.span) {
        Ok(span) => Ok(
            Education {
                span,
                uni_name: record.uni_name.clone(),
                degree: record.degree.clone(),
                field_of_study: record.field_of_study.clone(),
            },
        ),
        Err(error) => Err(error),
    }
}

/// The stored form of a period of employment.
pub fn experience_to_record(item: &Experience) -> (record: ExperienceRecord)
    ensures
        record@ == item@,
        record@.span.wf(),
{
    ExperienceRecord {
        span: span_to_record(&item.span),
        employer: item.employer.clone(),
        job_name: item.job_name.clone(),
        description: item.description.clone(),
    }
}

/// Reads a stored period of employment.
pub fn experience_from_record(record: &ExperienceRecord) -> (item: Result<
    Experience,
    ValidationError,
>)
    ensures
        span_error(record@.span) matches Some(error) ==> item == Err::<
            Experience,
            ValidationError,
        >(error),
        span_error(record@.span) is None ==> item is Ok && item.unwrap()@ == record@,
{
    match span_from_record(&record.span) {
        Ok(span) => Ok(
            Experience {
                span,
                employer: record.employer.clone(),
                job_name: record.job_name.clone(),
                description: record.description.clone(),
            },
        ),
        Err(error) => Err(error),
    }
}

/// Reads stored periods of study in their order, up to the first that is
/// refused.
pub fn education_from_records(records: &Vec<EducationRecord>) -> (items: Result<
    Vec<Education>,
    ValidationError,
>)
    ensures
        first_span_error(education_spans(education_record_models(records@))) matches Some(error)
            ==> items == Err::<Vec<Education>, ValidationError>(error),
        first_span_error(education_spans(education_record_models(records@))) is None ==> items
            is Ok && education_models(items.unwrap()@) == education_record_models(records@),
{
    let ghost spans = education_spans(education_record_models(records@));
    let mut items: Vec<Education> = Vec::new();
    let mut i: usize = 0;
    assert(spans.skip(0) =~= spans);
    while i < records.len()
        invariant
            i <= records.len(),
            spans == education_spans(education_record_models(records@)),
            items@.len() == i,
            first_span_error(spans) == first_span_error(spans.skip(i as int)),
            forall|k: int| 0 <= k < i ==> (#[trigger] items@[k])@ == records@[k]@,
        decreases records.len() - i,
    {
        proof {
            assert(spans.skip(i as int)[0] == spans[i as int]);
            assert(spans.skip(i as int).drop_first() =~= spans.skip(i + 1));
            assert(spans[i as int] == records@[i as int]@.span);
        }
        match education_from_record(&records[i]) {
            Ok(item) => {
                items.push(item);
            },
            Err(error) => {
                return Err(error);
            },
        }
        i += 1;
    }
    proof {
        assert(spans.skip(i as int).len() == 0);
        assert(education_models(items@) =~= education_record_models(records@));
    }
    Ok(items)
}

/// Reads stored periods of employment in their order, up to the first that
/// is refused.
pub fn experience_from_records(records: &Vec<ExperienceRecord>) -> (items: Result<
    Vec<Experience>,
    ValidationError,
>)
    ensures
        first_span_error(experience_spans(experience_record_models(records@))) matches Some(
            error,
        ) ==> items == Err::<Vec<Experience>, ValidationError>(error),
        first_span_error(experience_spans(experience_record_models(records@))) is None ==> items
            is Ok && experience_models(items.unwrap()@) == experience_record_models(records@),
{
    let ghost spans = experience_spans(experience_record_models(records@));
    let mut items: Vec<Experience> = Vec::new();
    let mut i: usize = 0;
    assert(spans.skip(0) =~= spans);
    while i < records.len()
        invariant
            i <= records.len(),
            spans == experience_spans(experience_record_models(records@)),
            items@.len() == i,
            first_span_error(spans) == first_span_error(spans.skip(i as int)),
            forall|k: int| 0 <= k < i ==> (#[trigger] items@[k])@ == records@[k]@,
        decreases records.len() - i,
    {
        proof {
            assert(spans.skip(i as int)[0] == spans[i as int]);
            assert(spans.skip(i as int).drop_first() =~= spans.skip(i + 1));
            assert(spans[i as int] == records@[i as int]@.span);
        }
        match experience_from_record(&records[i]) {
            Ok(item) => {
                items.push(item);
            },
            Err(error) => {
                return Err(error);
            },
        }
        i += 1;
    }
    proof {
        assert(spans.skip(i as int).len() == 0);
        assert(experience_models(items@) =~= experience_record_models(records@));
    }
    Ok(items)
}

/// The stored form of a CV. Reading it back gives the same CV.
pub fn cv_to_record(cv: &CV) -> (record: CvRecord)
    ensures
        record@ == cv@,
        cv_valid(cv@),
        spec_decode(record@) == Ok::<CVModel, ValidationError>(cv@),
{
    let basic = basic_to_record(&cv.basic);
    let mut education: Vec<EducationRecord> = Vec::new();
    let mut i: usize = 0;
    while i < cv.education.len()
        invariant
            i <= cv.education.len(),
            education@.len() == i,
            forall|k: int| 0 <= k < i ==> (#[trigger] education@[k])@ == cv.education@[k]@,
            forall|k: int| 0 <= k < i ==> (#[trigger] education@[k])@.span.wf(),
        decreases cv.education.len() - i,
    {
        education.push(education_to_record(&cv.education[i]));
        i += 1;
    }
    let mut experience: Vec<ExperienceRecord> = Vec::new();
    let mut j: usize = 0;
    while j < cv.experience.len()
        invariant
            j <= cv.experience.len(),
            experience@.len() == j,
            forall|k: int| 0 <= k < j ==> (#[trigger] experience@[k])@ == cv.experience@[k]@,
            forall|k: int| 0 <= k < j ==> (#[trigger] experience@[k])@.span.wf(),
        decreases cv.experience.len() - j,
    {
        experience.push(experience_to_record(&cv.experience[j]));
        j += 1;
    }
    let record = CvRecord {
        path: clone_text(&cv.path),
        basic,
        education,
        experience,
        languages: clone_languages(&cv.languages),
    };
    proof {
        assert(education_record_models(record.education@) =~= education_models(cv.education@));
        assert(experience_record_models(record.experience@) =~= experience_models(
            cv.experience@,
        ));
        let model = record@;
        assert forall|k: int| 0 <= k < model.education.len() implies (
        #[trigger] model.education[k]).span.wf() by {
            assert(record.education@[k]@.span.wf());
        }
        assert forall|k: int| 0 <= k < model.experience.len() implies (
        #[trigger] model.experience[k]).span.wf() by {
            assert(record.experience@[k]@.span.wf());
        }
        let spans = education_spans(model.education);
        assert forall|k: int| 0 <= k < spans.len() implies (#[trigger] spans[k]).wf() by {
            assert(model.education[k].span.wf());
        }
        lemma_valid_spans_pass(spans);
        let spans = experience_spans(model.experience);
        assert forall|k: int| 0 <= k < spans.len() implies (#[trigger] spans[k]).wf() by {
            assert(model.experience[k].span.wf());
        }
        lemma_valid_spans_pass(spans);
    }
    record
}

/// Reads a stored CV: the personal data, then the periods of study, then
/// the periods of employment. The first thing that is wrong is reported,
/// and then no CV is built.
pub fn cv_from_record(record: &CvRecord) -> (cv: Result<CV, ValidationError>)
    ensures
        spec_decode(record@) matches Err(error) ==> cv == Err::<CV, ValidationError>(error),
        spec_decode(record@) matches Ok(model) ==> cv is Ok && cv.unwrap()@ == model,
{
    let basic = match basic_from_record(&record.basic) {
        Ok(basic) => basic,
        Err(error) => {
            return Err(error);
        },
    };
    let education = match education_from_records(&record.education) {
        Ok(items) => items,
        Err(error) => {
            return Err(error);
        },
    };
    let experience = match experience_from_records(&record.experience) {
        Ok(items) => items,
        Err(error) => {
            return Err(error);
        },
    };
    Ok(
        CV {
            path: clone_text(&record.path),
            basic,
            education,
            experience,
            languages: clone_languages(&record.languages),
        },
    )
}

} // verus!
