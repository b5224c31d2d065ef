use cvmaker::base::BasicInfo;
use cvmaker::base::BasicInfoBuilder;
use cvmaker::base::CVBuilder;
use cvmaker::base::Contact;
use cvmaker::base::Date;
use cvmaker::base::Education;
use cvmaker::base::EmailAddress;
use cvmaker::base::Experience;
use cvmaker::base::Lang;
use cvmaker::base::Language;
use cvmaker::base::LanguageProficiency;
use cvmaker::base::PhoneNumber;
use cvmaker::base::TimeSpan;
use cvmaker::base::CV;
use cvmaker::renderer::render_commands;
use cvmaker::renderer::DrawCommand;
use cvmaker::renderer::FontType;
use cvmaker::renderer::RenderParams;
use cvmaker::renderer::Renderable;
use cvmaker::renderer::Renderer;
use cvmaker::renderer::RendererCoordinates;
use cvmaker::renderer::SheetDim;
use cvmaker::renderer::LINE_HEIGHT;
use cvmaker::renderer::TOP_MARGIN;

fn ymd(year: i32, month: u32, day: u32) -> Date {
    Date::from_ymd(year, month, day).unwrap()
}

fn basic_info() -> BasicInfo {
    let email = Contact::Email(EmailAddress::from("peter@raskolnikov.ru").unwrap());
    BasicInfo::new("Peter", "Raskolnikov", ymd(2000, 1, 1), vec![email]).unwrap()
}

fn span() -> TimeSpan {
    TimeSpan::new(ymd(2000, 1, 1), ymd(2001, 1, 1)).unwrap()
}

fn experience() -> Experience {
    Experience {
        span: span(),
        employer: "ABC, corp.".to_string(),
        job_name: "accountant".to_string(),
        description: "I loved it!".to_string(),
    }
}

fn education() -> Education {
    Education {
        span: span(),
        uni_name: "Oxford".to_string(),
        degree: "MA".to_string(),
        field_of_study: "Speech recognition".to_string(),
    }
}

fn english() -> Lang {
    Lang {
        language: Language::English,
        proficiency: LanguageProficiency::A1,
        notes: "".to_string(),
    }
}

fn texts(commands: &Vec<DrawCommand>) -> Vec<String> {
    commands.iter().map(|command| command.text.clone()).collect()
}

fn complex_cv() -> CV {
    CVBuilder::default(basic_info())
        .education(vec![education()])
        .experience(vec![experience()])
        .languages(vec![english()])
        .build()
        .unwrap()
}

#[test]
fn test() {}

#[test]
fn a4_sheet_and_start() {
    let dim = SheetDim::a4();
    assert_eq!(dim.width, 2100);
    assert_eq!(dim.height, 2970);
    assert_eq!(dim.item_offset(), 525);
    assert_eq!(dim.notes_offset(), 630);
    let start = RendererCoordinates::start(&dim);
    assert_eq!(start.col, 0);
    assert_eq!(start.row, 2820);
    assert_eq!(LINE_HEIGHT, 150);
    assert_eq!(TOP_MARGIN, 150);
}

#[test]
fn offsets_round_down() {
    let dim = SheetDim { width: 4294967295, height: 10 };
    assert_eq!(dim.item_offset(), 1073741823);
    assert_eq!(dim.notes_offset(), 1288490188);
    let tiny = SheetDim { width: 3, height: 0 };
    assert_eq!(tiny.item_offset(), 0);
    assert_eq!(tiny.notes_offset(), 0);
    assert_eq!(RendererCoordinates::start(&tiny).row, -150);
}

#[test]
fn render_params_builders() {
    let plain = RenderParams::default();
    assert_eq!(plain.offset, None);
    assert_eq!(plain.f_type, FontType::Normal);
    let bold = plain.with_font_type(FontType::Bold).with_offset(525);
    assert_eq!(bold.offset, Some(525));
    assert_eq!(bold.f_type, FontType::Bold);
    assert_eq!(bold.with_font_type(FontType::Italic).offset, Some(525));
}

#[test]
fn header_only_for_empty_lists() {
    let cv = CVBuilder::default(basic_info()).build().unwrap();
    let commands = render_commands(&cv);
    assert_eq!(
        texts(&commands),
        vec![
            "Peter Raskolnikov".to_string(),
            "Date of birth: 2000-01-01".to_string(),
            "E-mail : peter@raskolnikov.ru".to_string(),
        ]
    );
    for command in &commands {
        assert_eq!(command.col, 0);
        assert_eq!(command.font, FontType::Normal);
    }
}

#[test]
fn experience_scenario() {
    let cv = CVBuilder::default(basic_info()).experience(vec![experience()]).build().unwrap();
    let commands = render_commands(&cv);
    assert_eq!(
        texts(&commands),
        vec![
            "Peter Raskolnikov".to_string(),
            "Date of birth: 2000-01-01".to_string(),
            "E-mail : peter@raskolnikov.ru".to_string(),
            "Experience".to_string(),
            "ABC, corp.   2000-01-01   -   2001-01-01".to_string(),
            "accountant".to_string(),
            "I loved it!".to_string(),
        ]
    );
    assert_eq!(
        commands[3],
        DrawCommand { text: "Experience".to_string(), font: FontType::Italic, col: 0, row: 2370 }
    );
    assert_eq!(
        commands[4],
        DrawCommand {
            text: "ABC, corp.   2000-01-01   -   2001-01-01".to_string(),
            font: FontType::Bold,
            col: 525,
            row: 2220,
        }
    );
    assert_eq!(
        commands[5],
        DrawCommand { text: "accountant".to_string(), font: FontType::Italic, col: 525, row: 2070 }
    );
    assert_eq!(
        commands[6],
        DrawCommand { text: "I loved it!".to_string(), font: FontType::Normal, col: 525, row: 1920 }
    );
}

#[test]
fn whole_cv_in_fixed_order() {
    let commands = render_commands(&complex_cv());
    assert_eq!(
        texts(&commands),
        vec![
            "Peter Raskolnikov".to_string(),
            "Date of birth: 2000-01-01".to_string(),
            "E-mail : peter@raskolnikov.ru".to_string(),
            "Experience".to_string(),
            "ABC, corp.   2000-01-01   -   2001-01-01".to_string(),
            "accountant".to_string(),
            "I loved it!".to_string(),
            "Education".to_string(),
            "Speech recognition   2000-01-01   -   2001-01-01".to_string(),
            "MA".to_string(),
            "Oxford".to_string(),
            "Languages".to_string(),
            "English: Beginner".to_string(),
            "".to_string(),
        ]
    );
    assert_eq!(commands[7].font, FontType::Italic);
    assert_eq!(commands[8].font, FontType::Bold);
    assert_eq!(commands[9].font, FontType::Italic);
    assert_eq!(commands[10].font, FontType::Normal);
    assert_eq!(commands[12].col, 525);
    assert_eq!(commands[12].font, FontType::Normal);
    assert_eq!(commands[13].col, 630);
}

#[test]
fn rows_descend_by_one_line_height() {
    let commands = render_commands(&complex_cv());
    assert_eq!(commands[0].row, 2820);
    for i in 1..commands.len() {
        assert!(commands[i].row < commands[i - 1].row);
        assert_eq!(commands[i - 1].row - commands[i].row, 150);
    }
    assert_eq!(commands[13].row, 2820 - 13 * 150);
}

#[test]
fn page_overflow_is_not_handled() {
    let mut languages: Vec<Lang> = Vec::new();
    for _ in 0..20 {
        languages.push(english());
    }
    let cv = CVBuilder::default(basic_info()).languages(languages).build().unwrap();
    let commands = render_commands(&cv);
    assert_eq!(commands.len(), 3 + 1 + 40);
    assert_eq!(commands[43].row, 2820 - 43 * 150);
    assert!(commands[43].row < 0);
}

#[test]
fn empty_section_sets_no_label() {
    let cv = CVBuilder::default(basic_info()).languages(vec![english()]).build().unwrap();
    let commands = render_commands(&cv);
    let all = texts(&commands);
    assert!(!all.contains(&"Experience".to_string()));
    assert!(!all.contains(&"Education".to_string()));
    assert_eq!(all[3], "Languages");
    assert_eq!(all.len(), 6);
}

#[test]
fn every_contact_gets_a_line() {
    let contacts = vec![
        Contact::Phone(PhoneNumber::parse("+1 650-253-0000").unwrap()),
        Contact::Email(EmailAddress::from("peter@raskolnikov.ru").unwrap()),
    ];
    let info = BasicInfo::new("Peter", "Raskolnikov", ymd(1970, 1, 1), contacts).unwrap();
    let cv = CVBuilder::default(info).build().unwrap();
    let commands = render_commands(&cv);
    assert_eq!(
        texts(&commands),
        vec![
            "Peter Raskolnikov".to_string(),
            "Date of birth: 1970-01-01".to_string(),
            "Phone : +16502530000".to_string(),
            "E-mail : peter@raskolnikov.ru".to_string(),
        ]
    );
}

#[test]
fn renderer_moves_its_cursor_down_block_by_block() {
    let cv = complex_cv();
    let mut renderer = Renderer::new(&cv, SheetDim::a4());
    assert_eq!(renderer.cursor(), RendererCoordinates { col: 0, row: 2820 });
    renderer.render_basic_info();
    assert_eq!(renderer.cursor(), RendererCoordinates { col: 0, row: 2370 });
    renderer.render_text("Note", RenderParams::default().with_offset(10));
    assert_eq!(renderer.cursor(), RendererCoordinates { col: 0, row: 2220 });
    renderer.render_text_vector(vec![], RenderParams::default());
    assert_eq!(renderer.cursor(), RendererCoordinates { col: 0, row: 2220 });
    renderer.render_text_vector(
        vec!["a".to_string(), "b".to_string()],
        RenderParams::default().with_font_type(FontType::Bold),
    );
    assert_eq!(renderer.cursor(), RendererCoordinates { col: 0, row: 1920 });
    cv.experience[0].render_object(&mut renderer);
    assert_eq!(renderer.cursor(), RendererCoordinates { col: 0, row: 1470 });
    let none: Vec<Lang> = Vec::new();
    renderer.render_data_vector(&none, "Languages");
    assert_eq!(renderer.cursor(), RendererCoordinates { col: 0, row: 1470 });
    renderer.render_languages();
    assert_eq!(renderer.cursor(), RendererCoordinates { col: 0, row: 1020 });
    renderer.render_education();
    renderer.render_experience();
    let commands = renderer.render();
    assert_eq!(commands[3], DrawCommand { text: "Note".to_string(), font: FontType::Normal, col: 10, row: 2370 });
    assert_eq!(commands[5], DrawCommand { text: "b".to_string(), font: FontType::Bold, col: 0, row: 2070 });
    assert_eq!(commands.len(), 3 + 1 + 2 + 3 + 3 + 4 + 4 + 14);
    for i in 1..commands.len() {
        assert_eq!(commands[i - 1].row - commands[i].row, 150);
    }
}

#[test]
fn header_without_date_of_birth() {
    let info = BasicInfoBuilder::default()
        .name("Peter".to_string())
        .surname("Raskolnikov".to_string())
        .dob(None)
        .contacts(vec![Contact::Email(EmailAddress::from("peter@raskolnikov.ru").unwrap())])
        .build()
        .unwrap();
    let cv = CVBuilder::default(info).experience(vec![experience()]).build().unwrap();
    let commands = render_commands(&cv);
    assert_eq!(
        texts(&commands),
        vec![
            "Peter Raskolnikov".to_string(),
            "E-mail : peter@raskolnikov.ru".to_string(),
            "Experience".to_string(),
            "ABC, corp.   2000-01-01   -   2001-01-01".to_string(),
            "accountant".to_string(),
            "I loved it!".to_string(),
        ]
    );
    assert_eq!(commands[0].row, 2820);
    assert_eq!(commands[1].row, 2670);
    assert_eq!(commands[2].row, 2520);
    let mut renderer = Renderer::new(&cv, SheetDim::a4());
    renderer.render_basic_info();
    assert_eq!(renderer.cursor(), RendererCoordinates { col: 0, row: 2520 });
}
