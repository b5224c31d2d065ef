use cvmaker::base::Address;
use cvmaker::base::BasicInfo;
use cvmaker::base::CVBuilder;
use cvmaker::base::Contact;
use cvmaker::base::Date;
use cvmaker::base::Education;
use cvmaker::base::EmailAddress;
use cvmaker::base::Experience;
use cvmaker::base::Lang;
use cvmaker::base::Language;
use cvmaker::base::LanguageProficiency;
use cvmaker::base::PhoneNumber;
use cvmaker::base::TimeSpan;
use cvmaker::base::Url;
use cvmaker::base::ValidationError;
use cvmaker::base::CV;
use cvmaker::record::contact_from_record;
use cvmaker::record::contact_to_record;
use cvmaker::record::cv_from_record;
use cvmaker::record::cv_to_record;
use cvmaker::record::date_from_record;
use cvmaker::record::date_to_record;
use cvmaker::record::span_from_record;
use cvmaker::record::span_to_record;
use cvmaker::record::AddressRecord;
use cvmaker::record::BasicInfoRecord;
use cvmaker::record::ContactRecord;
use cvmaker::record::CvRecord;
use cvmaker::record::DateRecord;
use cvmaker::record::EducationRecord;
use cvmaker::record::ExperienceRecord;
use cvmaker::record::TimeSpanRecord;

fn ymd(year: i32, month: u32, day: u32) -> Date {
    Date::from_ymd(year, month, day).unwrap()
}

fn span() -> TimeSpan {
    TimeSpan::new(ymd(2000, 1, 1), ymd(2001, 1, 1)).unwrap()
}

fn complex_cv() -> CV {
    let contacts = vec![
        Contact::Email(EmailAddress::from("peter@raskolnikov.ru").unwrap()),
        Contact::Website(Url::parse("HTTP://Raskolnikov.ru").unwrap()),
        Contact::Address(Address::new("Stolyarny", 5, 190031, "RU").unwrap()),
        Contact::Phone(PhoneNumber::parse("+1 650-253-0000").unwrap()),
    ];
    let basic = BasicInfo::new("Peter", "Raskolnikov", ymd(2000, 1, 1), contacts).unwrap();
    CVBuilder::default(basic)
        .education(vec![Education {
            span: span(),
            uni_name: "Oxford".to_string(),
            degree: "MA".to_string(),
            field_of_study: "Speech recognition".to_string(),
        }])
        .experience(vec![Experience {
            span: span(),
            employer: "ABC, corp.".to_string(),
            job_name: "accountant".to_string(),
            description: "I loved it!".to_string(),
        }])
        .languages(vec![Lang {
            language: Language::English,
            proficiency: LanguageProficiency::A1,
            notes: "".to_string(),
        }])
        .path(Some("/tmp/abc.json".to_string()))
        .build()
        .unwrap()
}

fn good_record() -> CvRecord {
    cv_to_record(&complex_cv())
}

#[test]
fn basic_cv_has_empty_lists_and_no_path() {
    let email = Contact::Email(EmailAddress::from("peter@raskolnikov.ru").unwrap());
    let basic = BasicInfo::new("Peter", "Raskolnikov", ymd(2000, 1, 1), vec![email]).unwrap();
    let record = cv_to_record(&CVBuilder::default(basic).build().unwrap());
    assert_eq!(record.path, None);
    assert!(record.education.is_empty());
    assert!(record.experience.is_empty());
    assert!(record.languages.is_empty());
    assert_eq!(record.basic.name, "Peter");
    assert_eq!(record.basic.surname, "Raskolnikov");
    assert_eq!(record.basic.dob, Some(DateRecord { year: 2000, month: 1, day: 1 }));
    assert_eq!(
        record.basic.contacts,
        vec![ContactRecord::Email("peter@raskolnikov.ru".to_string())]
    );
}

#[test]
fn stored_cv_reads_back_equal() {
    let cv = complex_cv();
    let record = cv_to_record(&cv);
    assert_eq!(cv_from_record(&record), Ok(complex_cv()));
    assert_eq!(cv_to_record(&cv_from_record(&record).unwrap()), record);
}

#[test]
fn stored_cv_holds_canonical_forms() {
    let record = good_record();
    assert_eq!(
        record.basic.contacts,
        vec![
            ContactRecord::Email("peter@raskolnikov.ru".to_string()),
            ContactRecord::Website("http://raskolnikov.ru/".to_string()),
            ContactRecord::Address(AddressRecord {
                street: "Stolyarny".to_string(),
                street_subunit: 5,
                postal_code: 190031,
                country: "RU".to_string(),
            }),
            ContactRecord::Phone("+16502530000".to_string()),
        ]
    );
    assert_eq!(
        record.education[0].span,
        TimeSpanRecord {
            from: DateRecord { year: 2000, month: 1, day: 1 },
            to: DateRecord { year: 2001, month: 1, day: 1 },
        }
    );
    assert_eq!(record.experience[0].employer, "ABC, corp.");
    assert_eq!(record.languages[0].language, Language::English);
    assert_eq!(record.path, Some("/tmp/abc.json".to_string()));
}

#[test]
fn reading_puts_contacts_in_canonical_form() {
    let site = contact_from_record(&ContactRecord::Website("HTTP://Example.COM".to_string()));
    assert_eq!(site, Ok(Contact::Website(Url::parse("http://example.com/").unwrap())));
    let phone = contact_from_record(&ContactRecord::Phone("+1 (650) 253-0000".to_string()));
    assert_eq!(phone, Ok(Contact::Phone(PhoneNumber::parse("+16502530000").unwrap())));
    assert_eq!(
        contact_to_record(&phone.unwrap()),
        ContactRecord::Phone("+16502530000".to_string())
    );
}

#[test]
fn reading_refuses_bad_contacts() {
    assert_eq!(
        contact_from_record(&ContactRecord::Email("nobody".to_string())),
        Err(ValidationError::InvalidEmail)
    );
    assert_eq!(
        contact_from_record(&ContactRecord::Website("nowhere".to_string())),
        Err(ValidationError::InvalidUrl)
    );
    assert_eq!(
        contact_from_record(&ContactRecord::Phone("nothing".to_string())),
        Err(ValidationError::InvalidPhone)
    );
    assert_eq!(
        contact_from_record(&ContactRecord::Address(AddressRecord {
            street: "Stolyarny".to_string(),
            street_subunit: 5,
            postal_code: 190031,
            country: "Russia".to_string(),
        })),
        Err(ValidationError::InvalidCountry)
    );
}

#[test]
fn reading_refuses_bad_dates_and_spans() {
    assert_eq!(
        date_from_record(&DateRecord { year: 2001, month: 2, day: 29 }),
        Err(ValidationError::InvalidDate)
    );
    assert_eq!(ValidationError::InvalidDate.message(), "Not a valid date.");
    let good = DateRecord { year: 2000, month: 2, day: 29 };
    assert_eq!(date_from_record(&good), Ok(ymd(2000, 2, 29)));
    assert_eq!(date_to_record(&ymd(2000, 2, 29)), good);
    let bad = DateRecord { year: 2000, month: 13, day: 1 };
    let later = DateRecord { year: 2000, month: 3, day: 1 };
    assert_eq!(
        span_from_record(&TimeSpanRecord { from: bad, to: good }),
        Err(ValidationError::InvalidDate)
    );
    assert_eq!(
        span_from_record(&TimeSpanRecord { from: good, to: bad }),
        Err(ValidationError::InvalidDate)
    );
    assert_eq!(
        span_from_record(&TimeSpanRecord { from: later, to: good }),
        Err(ValidationError::InvalidTimeSpan)
    );
    let span = span_from_record(&TimeSpanRecord { from: good, to: later }).unwrap();
    assert_eq!(span_to_record(&span), TimeSpanRecord { from: good, to: later });
}

#[test]
fn reading_reports_the_first_error() {
    let mut record = good_record();
    record.basic.contacts.clear();
    assert_eq!(cv_from_record(&record), Err(ValidationError::EmptyContacts));

    let mut record = good_record();
    record.basic.contacts[3] = ContactRecord::Phone("x".to_string());
    record.basic.contacts[1] = ContactRecord::Website("x".to_string());
    record.education[0].span.to = DateRecord { year: 1999, month: 1, day: 1 };
    assert_eq!(cv_from_record(&record), Err(ValidationError::InvalidUrl));

    let mut record = good_record();
    record.basic.dob = Some(DateRecord { year: 2000, month: 0, day: 1 });
    record.basic.contacts[0] = ContactRecord::Email("x".to_string());
    assert_eq!(cv_from_record(&record), Err(ValidationError::InvalidDate));

    let mut record = good_record();
    record.education[0].span.to = DateRecord { year: 1999, month: 1, day: 1 };
    record.experience[0].span.to = DateRecord { year: 1999, month: 2, day: 30 };
    assert_eq!(cv_from_record(&record), Err(ValidationError::InvalidTimeSpan));

    let mut record = good_record();
    record.experience[0].span.to = DateRecord { year: 1999, month: 2, day: 30 };
    assert_eq!(cv_from_record(&record), Err(ValidationError::InvalidDate));
}

#[test]
fn record_without_date_of_birth() {
    let record = CvRecord {
        path: None,
        basic: BasicInfoRecord {
            name: "Peter".to_string(),
            surname: "Raskolnikov".to_string(),
            dob: None,
            contacts: vec![ContactRecord::Email("peter@raskolnikov.ru".to_string())],
        },
        education: Vec::<EducationRecord>::new(),
        experience: Vec::<ExperienceRecord>::new(),
        languages: Vec::<Lang>::new(),
    };
    let cv = cv_from_record(&record).unwrap();
    assert_eq!(cv.basic.dob(), None);
    assert_eq!(cv.path, None);
    assert_eq!(cv_to_record(&cv), record);
}

#[test]
fn date_text_reads_back() {
    for date in [ymd(2000, 1, 1), ymd(987, 11, 5), ymd(0, 2, 29), ymd(-44, 3, 15), ymd(12345, 6, 7), ymd(262142, 12, 31), ymd(-262143, 1, 1)] {
        assert_eq!(Date::parse(&date.to_string()), Some(date));
    }
    assert_eq!(Date::parse("2000-01-01"), Some(ymd(2000, 1, 1)));
    assert_eq!(Date::parse("2001-02-29"), None);
    assert_eq!(Date::parse("yesterday"), None);
    assert_eq!(ymd(-44, 3, 15).to_string(), "-0044-03-15");
    assert_eq!(ymd(12345, 6, 7).to_string(), "+12345-06-07");
}
