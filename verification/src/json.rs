use crate::base::decimal_string;
use crate::base::decimal_text;
use crate::base::AddressModel;
use crate::base::BasicInfoModel;
use crate::base::CVModel;
use crate::base::Contact;
use crate::base::ContactModel;
use crate::base::DateModel;
use crate::base::Education;
use crate::base::EducationModel;
use crate::base::Experience;
use crate::base::ExperienceModel;
use crate::base::Lang;
use crate::base::LangModel;
use crate::base::TimeSpan;
use crate::base::TimeSpanModel;
use crate::base::BasicInfo;
use crate::base::CV;
use crate::base::contact_models;
use crate::base::education_models;
use crate::base::experience_models;
use crate::base::lang_models;
use vstd::prelude::*;
use vstd::string::StringExecFns;

verus! {

/// The JSON string literal, quotes and escapes included, that serde_json
/// writes for a text.
pub uninterp spec fn json_quoted(text: Seq<char>) -> Seq<char>;

/// Writes a text as a JSON string literal with serde_json: the `Display` of
/// a `serde_json::Value` made from the text. Trusted: the literal depends on
/// the text alone.
#[verifier::external_body]
fn json_quote(text: &str) -> (quoted: String)
    ensures
        quoted@ == json_quoted(text@),
{
    serde_json::Value::from(text).to_string()
}

/// The given documents with commas between them.
pub open spec fn join_json(items: Seq<Seq<char>>) -> Seq<char>
    decreases items.len(),
{
    if items.len() == 0 {
        Seq::empty()
    } else if items.len() == 1 {
        items[0]
    } else {
        join_json(items.drop_last()) + ","@ + items.last()
    }
}

/// A JSON array of the given documents.
pub open spec fn array_json(items: Seq<Seq<char>>) -> Seq<char> {
    "["@ + join_json(items) + "]"@
}

/// A date as JSON: its ISO text as a string.
pub open spec fn date_json(date: DateModel) -> Seq<char> {
    json_quoted(date.text())
}

/// A time span as JSON.
pub open spec fn span_json(span: TimeSpanModel) -> Seq<char> {
    "{\"from\":"@ + date_json(span.from) + ",\"to\":"@ + date_json(span.to) + "}"@
}

/// A postal address as JSON.
pub open spec fn address_json(address: AddressModel) -> Seq<char> {
    "{\"street\":"@ + json_quoted(address.street) + ",\"street_subunit\":"@ + decimal_text(
        address.street_subunit,
    ) + ",\"postal_code\":"@ + decimal_text(address.postal_code) + ",\"country\":"@ + json_quoted(
        address.country,
    ) + "}"@
}

/// A contact as JSON: an object with one field, named after the kind.
pub open spec fn contact_json(contact: ContactModel) -> Seq<char> {
    match contact {
        ContactModel::Email(address) => "{\"Email\":"@ + json_quoted(address) + "}"@,
        ContactModel::Website(url) => "{\"Website\":"@ + json_quoted(url) + "}"@,
        ContactModel::Address(address) => "{\"Address\":"@ + address_json(address) + "}"@,
        ContactModel::Phone(number) => "{\"Phone\":"@ + json_quoted(number) + "}"@,
    }
}

/// An optional date as JSON: `null` where there is none.
pub open spec fn optional_date_json(date: Option<DateModel>) -> Seq<char> {
    match date {
        Some(date) => date_json(date),
        None => "null"@,
    }
}

/// An optional text as JSON: `null` where there is none.
pub open spec fn optional_text_json(text: Option<Seq<char>>) -> Seq<char> {
    match text {
        Some(text) => json_quoted(text),
        None => "null"@,
    }
}

/// Personal data as JSON.
pub open spec fn basic_json(basic: BasicInfoModel) -> Seq<char> {
    "{\"name\":"@ + json_quoted(basic.name) + ",\"surname\":"@ + json_quoted(basic.surname)
        + ",\"dob\":"@ + optional_date_json(basic.dob) + ",\"contacts\":"@ + array_json(
        basic.contacts.map_values(|contact: ContactModel| contact_json(contact)),
    ) + "}"@
}

/// A period of study as JSON.
pub open spec fn education_json(item: EducationModel) -> Seq<char> {
    "{\"span\":"@ + span_json(item.span) + ",\"uni_name\":"@ + json_quoted(item.uni_name)
        + ",\"degree\":"@ + json_quoted(item.degree) + ",\"field_of_study\":"@ + json_quoted(
        item.field_of_study,
    ) + "}"@
}

/// A period of employment as JSON.
pub open spec fn experience_json(item: ExperienceModel) -> Seq<char> {
    "{\"span\":"@ + span_json(item.span) + ",\"employer\":"@ + json_quoted(item.employer)
        + ",\"job_name\":"@ + json_quoted(item.job_name) + ",\"description\":"@ + json_quoted(
        item.description,
    ) + "}"@
}

/// A language entry as JSON.
pub open spec fn lang_json(item: LangModel) -> Seq<char> {
    "{\"language\":"@ + json_quoted(item.language.spec_name()) + ",\"proficiency\":"@
        + json_quoted(item.proficiency.spec_code()) + ",\"notes\":"@ + json_quoted(item.notes)
        + "}"@
}

/// A CV as one JSON document: `path`, `basic`, `education`, `experience`
/// and `languages`, in this order and without white space.
pub open spec fn cv_json(cv: CVModel) -> Seq<char> {
    "{\"path\":"@ + optional_text_json(cv.path) + ",\"basic\":"@ + basic_json(cv.basic)
        + ",\"education\":"@ + array_json(
        cv.education.map_values(|item: EducationModel| education_json(item)),
    ) + ",\"experience\":"@ + array_json(
        cv.experience.map_values(|item: ExperienceModel| experience_json(item)),
    ) + ",\"languages\":"@ + array_json(
        cv.languages.map_values(|item: LangModel| lang_json(item)),
    ) + "}"@
}

/// Joining one more document: `items` up to `count`, then the next one.
pub proof fn lemma_join_next(items: Seq<Seq<char>>, count: int)
    requires
        0 <= count < items.len(),
    ensures
        count == 0 ==> join_json(items.take(count + 1)) == items[count],
        count > 0 ==> join_json(items.take(count + 1)) == join_json(items.take(count)) + ","@
            + items[count],
        join_json(items.take(0)) == Seq::<char>::empty(),
{
    assert(items.take(count + 1).drop_last() =~= items.take(count));
    assert(items.take(count + 1).last() == items[count]);
    assert(items.take(count + 1)[0] == items[0]);
}

/// Writes a time span as JSON.
pub fn span_to_json(span: &TimeSpan) -> (text: String)
    ensures
        text@ == span_json(span@),
{
    let from = span.from().to_string();
    let to = span.to().to_string();
    let from = json_quote(from.as_str());
    let to = json_quote(to.as_str());
    String::from_str("{\"from\":").concat(from.as_str()).concat(",\"to\":").concat(
        to.as_str(),
    ).concat("}")
}

/// Writes a contact as JSON.
pub fn contact_to_json(contact: &Contact) -> (text: String)
    ensures
        text@ == contact_json(contact@),
{
    match contact {
        Contact::Email(address) => {
            let payload = json_quote(address.as_str());
            String::from_str("{\"Email\":").concat(payload.as_str()).concat("}")
        },
        Contact::Website(url) => {
            let payload = json_quote(url.as_str());
            String::from_str("{\"Website\":").concat(payload.as_str()).concat("}")
        },
        Contact::Address(address) => {
            let street = json_quote(address.street());
            let subunit = decimal_string(address.street_subunit());
            let postal = decimal_string(address.postal_code());
            let country = json_quote(address.country());
            String::from_str("{\"Address\":").concat("{\"street\":").concat(
                street.as_str(),
            ).concat(",\"street_subunit\":").concat(subunit.as_str()).concat(
                ",\"postal_code\":",
            ).concat(postal.as_str()).concat(",\"country\":").concat(country.as_str()).concat(
                "}",
            ).concat("}")
        },
        Contact::Phone(number) => {
            let payload = json_quote(number.as_str());
            String::from_str("{\"Phone\":").concat(payload.as_str()).concat("}")
        },
    }
}

/// Writes personal data as JSON.
pub fn basic_to_json(basic: &BasicInfo) -> (text: String)
    ensures
        text@ == basic_json(basic@),
{
    let name = json_quote(basic.name());
    let surname = json_quote(basic.surname());
    let dob = match basic.dob() {
        Some(date) => {
            let iso = date.to_string();
            json_quote(iso.as_str())
        },
        None => String::from_str("null"),
    };
    let contacts = basic.contacts();
    let ghost items = contact_models(contacts@).map_values(
        |contact: ContactModel| contact_json(contact),
    );
    let mut list = String::from_str("[");
    let mut i: usize = 0;
    proof {
        assert(items.take(0) =~= Seq::<Seq<char>>::empty());
    }
    while i < contacts.len()
        invariant
            i <= contacts.len(),
            items == contact_models(contacts@).map_values(
                |contact: ContactModel| contact_json(contact),
            ),
            list@ == "["@ + join_json(items.take(i as int)),
        decreases contacts.len() - i,
    {
        if i > 0 {
            list.append(",");
        }
        let item = contact_to_json(&contacts[i]);
        list.append(item.as_str());
        proof {
            lemma_join_next(items, i as int);
            assert(items[i as int] == contact_json(contacts@[i as int]@));
            assert(list@ =~= "["@ + join_json(items.take(i + 1)));
        }
        i += 1;
    }
    list.append("]");
    proof {
        assert(items.take(contacts@.len() as int) =~= items);
    }
    String::from_str("{\"name\":").concat(name.as_str()).concat(",\"surname\":").concat(
        surname.as_str(),
    ).concat(",\"dob\":").concat(dob.as_str()).concat(",\"contacts\":").concat(
        list.as_str(),
    ).concat("}")
}

/// Writes a period of study as JSON.
pub fn education_to_json(item: &Education) -> (text: String)
    ensures
        text@ == education_json(item@),
{
    let span = span_to_json(&item.span);
    let uni_name = json_quote(item.uni_name.as_str());
    let degree = json_quote(item.degree.as_str());
    let field = json_quote(item.field_of_study.as_str());
    String::from_str("{\"span\":").concat(span.as_str()).concat(",\"uni_name\":").concat(
        uni_name.as_str(),
    ).concat(",\"degree\":").concat(degree.as_str()).concat(",\"field_of_study\":").concat(
        field.as_str(),
    ).concat("}")
}

/// Writes a period of employment as JSON.
pub fn experience_to_json(item: &Experience) -> (text: String)
    ensures
        text@ == experience_json(item@),
{
    let span = span_to_json(&item.span);
    let employer = json_quote(item.employer.as_str());
    let job_name = json_quote(item.job_name.as_str());
    let description = json_quote(item.description.as_str());
    String::from_str("{\"span\":").concat(span.as_str()).concat(",\"employer\":").concat(
        employer.as_str(),
    ).concat(",\"job_name\":").concat(job_name.as_str()).concat(",\"description\":").concat(
        description.as_str(),
    ).concat("}")
}

/// Writes a language entry as JSON.
pub fn lang_to_json(item: &Lang) -> (text: String)
    ensures
        text@ == lang_json(item@),
{
    let language = json_quote(item.language.name());
    let proficiency = json_quote(item.proficiency.code());
    let notes = json_quote(item.notes.as_str());
    String::from_str("{\"language\":").concat(language.as_str()).concat(
        ",\"proficiency\":",
    ).concat(proficiency.as_str()).concat(",\"notes\":").concat(notes.as_str()).concat("}")
}

/// Writes periods of study as a JSON array.
pub fn education_list_to_json(items: &Vec<Education>) -> (text: String)
    ensures
        text@ == array_json(education_models(items@).map_values(|item: EducationModel| education_json(item))),
{
    let ghost documents = education_models(items@).map_values(|item: EducationModel| education_json(item));
    let mut text = String::from_str("[");
    let mut i: usize = 0;
    proof {
        assert(documents.take(0) =~= Seq::<Seq<char>>::empty());
    }
    while i < items.len()
        invariant
            i <= items.len(),
            documents == education_models(items@).map_values(|item: EducationModel| education_json(item)),
            text@ == "["@ + join_json(documents.take(i as int)),
        decreases items.len() - i,
    {
        if i > 0 {
            text.append(",");
        }
        let item = education_to_json(&items[i]);
        text.append(item.as_str());
        proof {
            lemma_join_next(documents, i as int);
            assert(documents[i as int] == education_json(items@[i as int]@));
            assert(text@ =~= "["@ + join_json(documents.take(i + 1)));
        }
        i += 1;
    }
    text.append("]");
    proof {
        assert(documents.take(items@.len() as int) =~= documents);
    }
    text
}

/// Writes periods of employment as a JSON array.
pub fn experience_list_to_json(items: &Vec<Experience>) -> (text: String)
    ensures
        text@ == array_json(experience_models(items@).map_values(|item: ExperienceModel| experience_json(item))),
{
    let ghost documents = experience_models(items@).map_values(|item: ExperienceModel| experience_json(item));
    let mut text = String::from_str("[");
    let mut i: usize = 0;
    proof {
        assert(documents.take(0) =~= Seq::<Seq<char>>::empty());
    }
    while i < items.len()
        invariant
            i <= items.len(),
            documents == experience_models(items@).map_values(|item: ExperienceModel| experience_json(item)),
            text@ == "["@ + join_json(documents.take(i as int)),
        decreases items.len() - i,
    {
        if i > 0 {
            text.append(",");
        }
        let item = experience_to_json(&items[i]);
        text.append(item.as_str());
        proof {
            lemma_join_next(documents, i as int);
            assert(documents[i as int] == experience_json(items@[i as int]@));
            assert(text@ =~= "["@ + join_json(documents.take(i + 1)));
        }
        i += 1;
    }
    text.append("]");
    proof {
        assert(documents.take(items@.len() as int) =~= documents);
    }
    text
}

/// Writes language entries as a JSON array.
pub fn lang_list_to_json(items: &Vec<Lang>) -> (text: String)
    ensures
        text@ == array_json(lang_models(items@).map_values(|item: LangModel| lang_json(item))),
{
    let ghost documents = lang_models(items@).map_values(|item: LangModel| lang_json(item));
    let mut text = String::from_str("[");
    let mut i: usize = 0;
    proof {
        assert(documents.take(0) =~= Seq::<Seq<char>>::empty());
    }
    while i < items.len()
        invariant
            i <= items.len(),
            documents == lang_models(items@).map_values(|item: LangModel| lang_json(item)),
            text@ == "["@ + join_json(documents.take(i as int)),
        decreases items.len() - i,
    {
        if i > 0 {
            text.append(",");
        }
        let item = lang_to_json(&items[i]);
        text.append(item.as_str());
        proof {
            lemma_join_next(documents, i as int);
            assert(documents[i as int] == lang_json(items@[i as int]@));
            assert(text@ =~= "["@ + join_json(documents.take(i + 1)));
        }
        i += 1;
    }
    text.append("]");
    proof {
        assert(documents.take(items@.len() as int) =~= documents);
    }
    text
}

/// Writes a CV as one JSON document.
pub fn cv_to_json(cv: &CV) -> (text: String)
    ensures
        text@ == cv_json(cv@),
{
    let path = match &cv.path {
        Some(path) => json_quote(path.as_str()),
        None => String::from_str("null"),
    };
    let basic = basic_to_json(&cv.basic);
    let education = education_list_to_json(&cv.education);
    let experience = experience_list_to_json(&cv.experience);
    let languages = lang_list_to_json(&cv.languages);
    String::from_str("{\"path\":").concat(path.as_str()).concat(",\"basic\":").concat(
        basic.as_str(),
    ).concat(",\"education\":").concat(education.as_str()).concat(",\"experience\":").concat(
        experience.as_str(),
    ).concat(",\"languages\":").concat(languages.as_str()).concat("}")
}

} // verus!
