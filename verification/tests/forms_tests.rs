use cvmaker::base::Contact;
use cvmaker::base::Date;
use cvmaker::base::EmailAddress;
use cvmaker::base::Language;
use cvmaker::base::LanguageProficiency;
use cvmaker::base::ValidationError;
use cvmaker::forms::collect_form_data;
use cvmaker::forms::education_from_form;
use cvmaker::forms::experience_from_form;
use cvmaker::forms::lang_from_form;
use cvmaker::forms::collect_basic_info;
use cvmaker::forms::contact_from_form;
use cvmaker::forms::first_uppercase;
use cvmaker::forms::retrieve_date;
use cvmaker::forms::FormError;

#[test]
fn form_basic_data() {}

#[test]
fn first_letter_goes_upper_case() {
    assert_eq!(first_uppercase("contacts"), "Contacts");
    assert_eq!(first_uppercase("education"), "Education");
    assert_eq!(first_uppercase("Experience"), "Experience");
    assert_eq!(first_uppercase(""), "");
    assert_eq!(first_uppercase("x"), "X");
    assert_eq!(first_uppercase("\u{df}a"), "SSa");
    assert_eq!(first_uppercase("\u{e9}t\u{e9}"), "\u{c9}t\u{e9}");
}

#[test]
fn date_from_pickers() {
    assert_eq!(retrieve_date(Some(2000), Some(5), Some(17)), Date::from_ymd(2000, 5, 17));
    assert_eq!(retrieve_date(Some(2000), Some(5), None), Date::from_ymd(2000, 5, 1));
    assert_eq!(retrieve_date(Some(2000), None, Some(17)), None);
    assert_eq!(retrieve_date(None, Some(5), Some(17)), None);
    assert_eq!(retrieve_date(None, None, None), None);
    assert_eq!(retrieve_date(Some(2001), Some(2), Some(31)), None);
    assert!(retrieve_date(Some(2000), Some(5), None).is_some());
}

#[test]
fn contact_from_a_form_row() {
    assert_eq!(
        contact_from_form("email", "peter@raskolnikov.ru"),
        Some(Contact::Email(EmailAddress::from("peter@raskolnikov.ru").unwrap()))
    );
    assert_eq!(contact_from_form("email", "peter"), None);
    let site = contact_from_form("website", "HTTP://raskolnikov.ru").unwrap();
    assert_eq!(site.to_string(), "Website : http://raskolnikov.ru/");
    assert_eq!(contact_from_form("website", "raskolnikov"), None);
    let phone = contact_from_form("phone", "+1 650-253-0000").unwrap();
    assert_eq!(phone.to_string(), "Phone : +16502530000");
    assert_eq!(contact_from_form("phone", "none"), None);
}

#[test]
fn form_needs_a_valid_contact() {
    let dob = Date::from_ymd(2000, 1, 1).unwrap();
    let refused = collect_basic_info("Peter", "Raskolnikov", dob, vec![]);
    assert_eq!(refused, Err(FormError::NoValidContact));
    assert_eq!(
        FormError::NoValidContact.message(),
        "There must be at least one valid contact filled in."
    );
    let email = contact_from_form("email", "peter@raskolnikov.ru").unwrap();
    let info = collect_basic_info("Peter", "Raskolnikov", dob, vec![email.clone()]).unwrap();
    assert_eq!(info.contacts(), &vec![email]);
    assert_eq!(info.name(), "Peter");
}

#[test]
fn experience_from_a_form_row() {
    let from = Date::from_ymd(2015, 5, 1);
    let to = Date::from_ymd(2016, 12, 1);
    let text = |value: &str| Some(value.to_string());
    let item = experience_from_form(from, to, text("ABC, inc."), text("Translator"), text(""))
        .unwrap()
        .unwrap();
    assert_eq!(item.span.from(), from.unwrap());
    assert_eq!(item.span.to(), to.unwrap());
    assert_eq!(item.employer, "ABC, inc.");
    assert_eq!(item.job_name, "Translator");
    assert_eq!(item.description, "");
    assert_eq!(experience_from_form(from, None, text("a"), text("b"), text("c")), Ok(None));
    assert_eq!(experience_from_form(None, to, text("a"), text("b"), text("c")), Ok(None));
    assert_eq!(experience_from_form(from, to, None, text("b"), text("c")), Ok(None));
    assert_eq!(experience_from_form(from, to, text("a"), None, text("c")), Ok(None));
    assert_eq!(experience_from_form(from, to, text("a"), text("b"), None), Ok(None));
    assert_eq!(
        experience_from_form(to, from, text("a"), text("b"), text("c")),
        Err(ValidationError::InvalidTimeSpan)
    );
    assert_eq!(experience_from_form(to, from, None, text("b"), text("c")), Ok(None));
}

#[test]
fn education_from_a_form_row() {
    let from = Date::from_ymd(2011, 9, 1);
    let to = Date::from_ymd(2014, 6, 1);
    let text = |value: &str| Some(value.to_string());
    let item = education_from_form(
        from,
        to,
        text("Cambridge"),
        text("Master of Arts"),
        text("Applied linguistics"),
    )
    .unwrap()
    .unwrap();
    assert_eq!(item.span.from(), from.unwrap());
    assert_eq!(item.span.to(), to.unwrap());
    assert_eq!(item.uni_name, "Cambridge");
    assert_eq!(item.degree, "Master of Arts");
    assert_eq!(item.field_of_study, "Applied linguistics");
    assert_eq!(education_from_form(from, to, text("a"), text("b"), None), Ok(None));
    assert_eq!(
        education_from_form(to, from, text("a"), text("b"), text("c")),
        Err(ValidationError::InvalidTimeSpan)
    );
}

#[test]
fn language_from_a_form_row() {
    let item = lang_from_form(
        Some(Language::Russian),
        Some(LanguageProficiency::C2),
        Some("native speaker".to_string()),
    )
    .unwrap();
    assert_eq!(item.language, Language::Russian);
    assert_eq!(item.proficiency, LanguageProficiency::C2);
    assert_eq!(item.notes, "native speaker");
    assert_eq!(lang_from_form(None, Some(LanguageProficiency::C2), Some("".to_string())), None);
    assert_eq!(lang_from_form(Some(Language::Russian), None, Some("".to_string())), None);
    assert_eq!(lang_from_form(Some(Language::Russian), Some(LanguageProficiency::C2), None), None);
}

#[test]
fn cv_from_a_form() {
    let dob = Date::from_ymd(2000, 1, 1).unwrap();
    let email = contact_from_form("email", "peter@raskolnikov.ru").unwrap();
    let basic = collect_basic_info("Peter", "Raskolnikov", dob, vec![email]);
    let language = lang_from_form(
        Some(Language::Arabic),
        Some(LanguageProficiency::C1),
        Some(String::new()),
    )
    .unwrap();
    let cv = collect_form_data(basic.clone(), vec![], vec![], vec![language.clone()]).unwrap();
    assert_eq!(cv.path, None);
    assert_eq!(cv.basic, basic.unwrap());
    assert!(cv.experience.is_empty());
    assert!(cv.education.is_empty());
    assert_eq!(cv.languages, vec![language]);
    let refused = collect_basic_info("Peter", "Raskolnikov", dob, vec![]);
    assert_eq!(
        collect_form_data(refused, vec![], vec![], vec![]),
        Err(FormError::NoValidContact)
    );
}
