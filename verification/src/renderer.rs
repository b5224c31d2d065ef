use crate::base::BasicInfoModel;
use crate::base::CVModel;
use crate::base::Education;
use crate::base::EducationModel;
use crate::base::Experience;
use crate::base::ExperienceModel;
use crate::base::Lang;
use crate::base::LangModel;
use crate::base::CV;
use vstd::prelude::*;
use vstd::string::StringExecFns;

verus! {

/// Distance between the base lines of two consecutive lines of text, in
/// tenths of a millimetre.
pub const LINE_HEIGHT: u32 = 150;

/// Distance of the first line from the top edge of the sheet, in tenths of a
/// millimetre.
pub const TOP_MARGIN: u32 = 150;

/// Size of a sheet, in tenths of a millimetre.
#[derive(Clone, Copy, Debug, PartialEq, Eq, Structural)]
pub struct SheetDim {
    pub width: u32,
    pub height: u32,
}

impl SheetDim {
    /// An A4 sheet: 210 mm by 297 mm.
    pub fn a4() -> (dim: SheetDim)
        ensures
            dim.width == 2100,
            dim.height == 2970,
    {
        SheetDim { width: 2100, height: 2970 }
    }

    /// Indentation of the lines of an item: a quarter of the width.
    pub open spec fn spec_item_offset(self) -> int {
        self.width as int / 4
    }

    /// Indentation of the notes under a language: three tenths of the width.
    pub open spec fn spec_notes_offset(self) -> int {
        self.width as int * 3 / 10
    }

    /// Indentation of the lines of an item: a quarter of the width.
    pub fn item_offset(&self) -> (offset: u32)
        ensures
            offset as int == self.spec_item_offset(),
    {
        self.width / 4
    }

    /// Indentation of the notes under a language: three tenths of the width.
    pub fn notes_offset(&self) -> (offset: u32)
        ensures
            offset as int == self.spec_notes_offset(),
    {
        let wide: u64 = self.width as u64;
        (wide * 3 / 10) as u32
    }
}

/// A position on the sheet: `col` from the left edge, `row` from the bottom
/// edge, in tenths of a millimetre. A row below the sheet is negative.
#[derive(Clone, Copy, Debug, PartialEq, Eq, Structural)]
pub struct RendererCoordinates {
    pub col: i64,
    pub row: i128,
}

impl RendererCoordinates {
    /// Where the first line goes: at the left edge, one margin below the top.
    pub fn start(dim: &SheetDim) -> (origin: RendererCoordinates)
        ensures
            origin.col == 0,
            origin.row == dim.height as int - TOP_MARGIN as int,
    {
        RendererCoordinates { col: 0, row: dim.height as i128 - TOP_MARGIN as i128 }
    }
}

/// The cut of a font.
#[derive(Clone, Copy, Debug, PartialEq, Eq, Structural)]
pub enum FontType {
    Normal,
    Italic,
    Bold,
}

/// How a block of text is set: its indentation and its font.
#[derive(Clone, Copy, Debug, PartialEq, Eq, Structural)]
pub struct RenderParams {
    pub offset: Option<u32>,
    pub f_type: FontType,
}

impl RenderParams {
    /// No indentation, normal font.
    pub fn default() -> (params: RenderParams)
        ensures
            params == (RenderParams { offset: None, f_type: FontType::Normal }),
    {
        RenderParams { offset: None, f_type: FontType::Normal }
    }

    /// The same parameters with the indentation `offset`.
    pub fn with_offset(self, offset: u32) -> (params: RenderParams)
        ensures
            params == (RenderParams { offset: Some(offset), f_type: self.f_type }),
    {
        RenderParams { offset: Some(offset), f_type: self.f_type }
    }

    /// The same parameters with the font `f_type`.
    pub fn with_font_type(self, f_type: FontType) -> (params: RenderParams)
        ensures
            params == (RenderParams { offset: self.offset, f_type }),
    {
        RenderParams { offset: self.offset, f_type }
    }

    /// The indentation in effect: zero where none was set.
    pub open spec fn spec_indent(self) -> int {
        match self.offset {
            Some(offset) => offset as int,
            None => 0,
        }
    }
}

/// One line of text before it is placed: what it says, in which font, and
/// how far it is indented.
pub struct LineModel {
    pub text: Seq<char>,
    pub font: FontType,
    pub offset: int,
}

/// One line of text at its place on the sheet.
#[derive(Debug, PartialEq, Eq)]
pub struct DrawCommand {
    pub text: String,
    pub font: FontType,
    pub col: i64,
    pub row: i128,
}

/// Mathematical value of a draw command.
pub struct DrawCommandModel {
    pub text: Seq<char>,
    pub font: FontType,
    pub col: int,
    pub row: int,
}

impl DrawCommandModel {
    /// The line that the command draws, without its row.
    pub open spec fn line(self) -> LineModel {
        LineModel { text: self.text, font: self.font, offset: self.col }
    }
}

impl View for DrawCommand {
    type V = DrawCommandModel;

    open spec fn view(&self) -> DrawCommandModel {
        DrawCommandModel {
            text: self.text@,
            font: self.font,
            col: self.col as int,
            row: self.row as int,
        }
    }
}

/// The values of a list of draw commands, in the same order.
pub open spec fn command_models(commands: Seq<DrawCommand>) -> Seq<DrawCommandModel> {
    commands.map_values(|command: DrawCommand| command@)
}

/// The lines that a list of draw commands draws, in the same order.
pub open spec fn command_lines(commands: Seq<DrawCommandModel>) -> Seq<LineModel> {
    commands.map_values(|command: DrawCommandModel| command.line())
}

/// The draw commands that set `lines` one below the other, the first at
/// `start_row`.
pub open spec fn place(lines: Seq<LineModel>, start_row: int) -> Seq<DrawCommandModel> {
    Seq::new(
        lines.len(),
        |i: int|
            DrawCommandModel {
                text: lines[i].text,
                font: lines[i].font,
                col: lines[i].offset,
                row: start_row - LINE_HEIGHT as int * i,
            },
    )
}

/// The lines of one block: every text with the block's font and indentation.
pub open spec fn block_lines(texts: Seq<Seq<char>>, params: RenderParams) -> Seq<LineModel> {
    texts.map_values(
        |text: Seq<char>| LineModel { text, font: params.f_type, offset: params.spec_indent() },
    )
}

/// The texts of a list of strings, in the same order.
pub open spec fn text_models(texts: Seq<String>) -> Seq<Seq<char>> {
    texts.map_values(|text: String| text@)
}

/// The header block: full name, date of birth, then one line per contact.
/// A CV without a date of birth has no line for it: the contacts follow the
/// name directly.
pub open spec fn basic_texts(basic: BasicInfoModel) -> Seq<Seq<char>> {
    let contacts = basic.contacts.map_values(|contact: crate::base::ContactModel| contact.text());
    match basic.dob {
        Some(date) => seq![basic.name + " "@ + basic.surname, "Date of birth: "@ + date.text()]
            + contacts,
        None => seq![basic.name + " "@ + basic.surname] + contacts,
    }
}

/// The lines of the header block.
pub open spec fn basic_lines(basic: BasicInfoModel) -> Seq<LineModel> {
    block_lines(basic_texts(basic), RenderParams { offset: None, f_type: FontType::Normal })
}

/// The three lines of a period of employment.
pub open spec fn experience_lines(item: ExperienceModel, dim: SheetDim) -> Seq<LineModel> {
    seq![
        LineModel {
            text: item.employer + "   "@ + item.span.text(),
            font: FontType::Bold,
            offset: dim.spec_item_offset(),
        },
        LineModel { text: item.job_name, font: FontType::Italic, offset: dim.spec_item_offset() },
        LineModel {
            text: item.description,
            font: FontType::Normal,
            offset: dim.spec_item_offset(),
        },
    ]
}

/// The three lines of a period of study.
pub open spec fn education_lines(item: EducationModel, dim: SheetDim) -> Seq<LineModel> {
    seq![
        LineModel {
            text: item.field_of_study + "   "@ + item.span.text(),
            font: FontType::Bold,
            offset: dim.spec_item_offset(),
        },
        LineModel { text: item.degree, font: FontType::Italic, offset: dim.spec_item_offset() },
        LineModel { text: item.uni_name, font: FontType::Normal, offset: dim.spec_item_offset() },
    ]
}

/// The two lines of a language entry; the notes are set even when empty.
pub open spec fn lang_lines(item: LangModel, dim: SheetDim) -> Seq<LineModel> {
    seq![
        LineModel {
            text: item.language.spec_name() + ": "@ + item.proficiency.spec_description(),
            font: FontType::Normal,
            offset: dim.spec_item_offset(),
        },
        LineModel { text: item.notes, font: FontType::Normal, offset: dim.spec_notes_offset() },
    ]
}

/// All the lines of the given groups, group after group.
pub open spec fn concat_all(groups: Seq<Seq<LineModel>>) -> Seq<LineModel>
    decreases groups.len(),
{
    if groups.len() == 0 {
        Seq::empty()
    } else {
        concat_all(groups.drop_last()) + groups.last()
    }
}

/// The lines of a section: nothing at all where there is no item, else the
/// label in italics followed by the lines of every item.
pub open spec fn section_lines(label: Seq<char>, items: Seq<Seq<LineModel>>) -> Seq<LineModel> {
    if items.len() == 0 {
        Seq::empty()
    } else {
        seq![LineModel { text: label, font: FontType::Italic, offset: 0 }] + concat_all(items)
    }
}

/// The lines of a whole CV: header, then experience, education and
/// languages.
pub open spec fn cv_lines(cv: CVModel, dim: SheetDim) -> Seq<LineModel> {
    basic_lines(cv.basic) + section_lines(
        "Experience"@,
        cv.experience.map_values(|item: ExperienceModel| experience_lines(item, dim)),
    ) + section_lines(
        "Education"@,
        cv.education.map_values(|item: EducationModel| education_lines(item, dim)),
    ) + section_lines(
        "Languages"@,
        cv.languages.map_values(|item: LangModel| lang_lines(item, dim)),
    )
}

/// Something that knows how to set itself on the sheet.
pub trait Renderable {
    /// The lines that the object is set as.
    spec fn lines(&self, dim: SheetDim) -> Seq<LineModel>;

    /// Sets the object at the renderer's cursor.
    fn render_object(&self, renderer: &mut Renderer)
        requires
            old(renderer).wf(),
        ensures
            final(renderer).wf(),
            final(renderer).same_job(*old(renderer)),
            final(renderer).spec_lines() == old(renderer).spec_lines() + self.lines(
                old(renderer).spec_boundaries(),
            ),
    ;
}

/// Sets a CV on one sheet, line by line from the top, and keeps the draw
/// commands. The cursor only ever moves down.
pub struct Renderer<'a> {
    cv: &'a CV,
    current: RendererCoordinates,
    boundaries: SheetDim,
    commands: Vec<DrawCommand>,
}

impl<'a> Renderer<'a> {
    /// The CV that is being set.
    pub closed spec fn spec_cv(&self) -> CV {
        *self.cv
    }

    /// The size of the sheet.
    pub closed spec fn spec_boundaries(&self) -> SheetDim {
        self.boundaries
    }

    /// Where the next line goes.
    pub closed spec fn spec_current(&self) -> RendererCoordinates {
        self.current
    }

    /// The draw commands issued so far.
    pub closed spec fn spec_commands(&self) -> Seq<DrawCommandModel> {
        command_models(self.commands@)
    }

    /// The lines set so far.
    pub open spec fn spec_lines(&self) -> Seq<LineModel> {
        command_lines(self.spec_commands())
    }

    /// The row of the first line.
    pub open spec fn start_row(&self) -> int {
        self.spec_boundaries().height as int - TOP_MARGIN as int
    }

    /// Both renderers work on the same CV and the same sheet.
    pub open spec fn same_job(&self, other: Renderer) -> bool {
        self.spec_cv() == other.spec_cv() && self.spec_boundaries() == other.spec_boundaries()
    }

    /// The lines set so far stand one below the other from the first row,
    /// and the cursor stands at the left edge just below the last of them.
    pub open spec fn wf(&self) -> bool {
        &&& self.spec_current().col == 0
        &&& self.spec_current().row == self.start_row() - LINE_HEIGHT as int
            * self.spec_commands().len()
        &&& self.spec_commands() == place(self.spec_lines(), self.start_row())
    }

    /// A renderer for `cv` on a sheet of size `dim`, with nothing set yet
    /// and the cursor one margin below the top of the sheet.
    pub fn new(cv: &'a CV, dim: SheetDim) -> (renderer: Renderer<'a>)
        ensures
            renderer.wf(),
            renderer.spec_cv() == *cv,
            renderer.spec_boundaries() == dim,
            renderer.spec_lines() == Seq::<LineModel>::empty(),
            renderer.spec_current().row == dim.height as int - TOP_MARGIN as int,
    {
        let renderer = Renderer {
            cv,
            current: RendererCoordinates::start(&dim),
            boundaries: dim,
            commands: Vec::new(),
        };
        assert(renderer.spec_lines() =~= Seq::<LineModel>::empty());
        assert(renderer.spec_commands() =~= place(renderer.spec_lines(), renderer.start_row()));
        renderer
    }

    /// Where the next line goes.
    pub fn cursor(&self) -> (position: RendererCoordinates)
        ensures
            position == self.spec_current(),
    {
        self.current
    }

    /// Moves the cursor right by `diff.col` and down by `diff.row`.
    fn move_cursor_with_offset(&mut self, diff: RendererCoordinates)
        requires
            i64::MIN <= old(self).current.col + diff.col <= i64::MAX,
            i128::MIN <= old(self).current.row - diff.row <= i128::MAX,
        ensures
            final(self).current.col == old(self).current.col + diff.col,
            final(self).current.row == old(self).current.row - diff.row,
            final(self).cv == old(self).cv,
            final(self).boundaries == old(self).boundaries,
            final(self).commands == old(self).commands,
    {
        self.current.col = self.current.col + diff.col;
        self.current.row = self.current.row - diff.row;
    }

    /// Sets the lines of `data` as one block: each line at the cursor's row,
    /// indented by the block's offset, in the block's font; after each line
    /// the cursor moves down by one line height. A block with at least one
    /// line leaves the cursor strictly lower than it found it.
    pub fn render_text_vector(&mut self, data: Vec<String>, params: RenderParams)
        requires
            old(self).wf(),
        ensures
            final(self).wf(),
            final(self).same_job(*old(self)),
            final(self).spec_lines() == old(self).spec_lines() + block_lines(
                text_models(data@),
                params,
            ),
            final(self).spec_current().row == old(self).spec_current().row - LINE_HEIGHT as int
                * data@.len(),
            data@.len() > 0 ==> final(self).spec_current().row < old(self).spec_current().row,
    {
        let indent: u32 = match params.offset {
            Some(offset) => offset,
            None => 0,
        };
        let col: i64 = self.current.col + indent as i64;
        let ghost before = self.commands@;
        let ghost start = self.start_row();
        let mut row: i128 = self.current.row;
        let issued: usize = self.commands.len();
        let mut i: usize = 0;
        while i < data.len()
            invariant
                i <= data.len(),
                issued == before.len(),
                -(TOP_MARGIN as int) <= start <= u32::MAX,
                self.cv == old(self).cv,
                self.boundaries == old(self).boundaries,
                self.current == old(self).current,
                self.commands@.len() == before.len() + i,
                row == start - LINE_HEIGHT as int * (before.len() + i),
                col == params.spec_indent(),
                forall|k: int| 0 <= k < before.len() ==> self.commands@[k] == before[k],
                forall|k: int|
                    0 <= k < i ==> (#[trigger] self.commands@[before.len() + k])@ == (
                    DrawCommandModel {
                        text: data@[k]@,
                        font: params.f_type,
                        col: params.spec_indent(),
                        row: start - LINE_HEIGHT as int * (before.len() + k),
                    }),
            decreases data.len() - i,
        {
            let text = data[i].clone();
            self.commands.push(DrawCommand { text, font: params.f_type, col, row });
            row = row - LINE_HEIGHT as i128;
            i += 1;
        }
        let height: i128 = LINE_HEIGHT as i128 * data.len() as i128;
        self.move_cursor_with_offset(RendererCoordinates { col: 0, row: height });
        proof {
            let added = block_lines(text_models(data@), params);
            assert(self.commands@.len() == before.len() + data@.len());
            assert forall|k: int| 0 <= k < self.commands@.len() implies self.spec_lines()[k] == (
            old(self).spec_lines() + added)[k] by {
                if k >= before.len() {
                    assert(self.commands@[before.len() + (k - before.len())] == self.commands@[k]);
                }
            }
            assert(self.spec_lines() =~= old(self).spec_lines() + added);
            assert forall|k: int| 0 <= k < self.commands@.len() implies self.spec_commands()[k]
                == place(self.spec_lines(), start)[k] by {
                if k >= before.len() {
                    assert(self.commands@[before.len() + (k - before.len())] == self.commands@[k]);
                } else {
                    assert(old(self).spec_commands()[k] == place(old(self).spec_lines(), start)[k]);
                }
            }
            assert(self.spec_commands() =~= place(self.spec_lines(), start));
        }
    }

    /// Sets one line of text as a block of its own.
    pub fn render_text(&mut self, text: &str, render_params: RenderParams)
        requires
            old(self).wf(),
        ensures
            final(self).wf(),
            final(self).same_job(*old(self)),
            final(self).spec_lines() == old(self).spec_lines().push(
                LineModel {
                    text: text@,
                    font: render_params.f_type,
                    offset: render_params.spec_indent(),
                },
            ),
            final(self).spec_current().row == old(self).spec_current().row - LINE_HEIGHT as int,
    {
        let data = vec![String::from_str(text)];
        proof {
            assert(block_lines(text_models(data@), render_params) =~= seq![
                LineModel {
                    text: text@,
                    font: render_params.f_type,
                    offset: render_params.spec_indent(),
                },
            ]);
        }
        self.render_text_vector(data, render_params);
    }

    /// Sets the header block: full name, date of birth where there is one,
    /// and every contact.
    pub fn render_basic_info(&mut self)
        requires
            old(self).wf(),
        ensures
            final(self).wf(),
            final(self).same_job(*old(self)),
            final(self).spec_lines() == old(self).spec_lines() + basic_lines(
                old(self).spec_cv().basic@,
            ),
            final(self).spec_current().row < old(self).spec_current().row,
    {
        let cv = self.cv;
        let basic = &cv.basic;
        let full_name = String::from_str(basic.name()).concat(" ").concat(basic.surname());
        let mut basic_vec: Vec<String> = vec![full_name];
        match basic.dob() {
            Some(date) => {
                let born = date.to_string();
                basic_vec.push(String::from_str("Date of birth: ").concat(born.as_str()));
            },
            None => {},
        }
        let head: usize = basic_vec.len();
        let contacts = basic.contacts();
        let mut i: usize = 0;
        while i < contacts.len()
            invariant
                i <= contacts.len(),
                1 <= head <= 2,
                head == 2 <==> basic@.dob is Some,
                basic_vec@.len() == head + i,
                basic_vec@[0]@ == basic@.name + " "@ + basic@.surname,
                head == 2 ==> basic_vec@[1]@ == "Date of birth: "@ + basic@.dob.unwrap().text(),
                forall|k: int|
                    0 <= k < i ==> (#[trigger] basic_vec@[head + k])@ == contacts@[k]@.text(),
            decreases contacts.len() - i,
        {
            basic_vec.push(contacts[i].to_string());
            i += 1;
        }
        proof {
            let texts = text_models(basic_vec@);
            let wanted = basic_texts(basic@);
            assert(wanted.len() == head + contacts@.len());
            assert forall|k: int| 0 <= k < texts.len() implies texts[k] == wanted[k] by {
                if k >= head {
                    assert(basic_vec@[head + (k - head)] == basic_vec@[k]);
                    assert(crate::base::contact_models(contacts@)[k - head] == contacts@[k
                        - head]@);
                }
            }
            assert(texts =~= wanted);
        }
        self.render_text_vector(basic_vec, RenderParams::default());
    }

    /// Sets a section: nothing at all where `data` is empty, else `label` in
    /// italics and then every item in turn.
    pub fn render_data_vector<T: Renderable>(&mut self, data: &Vec<T>, label: &str)
        requires
            old(self).wf(),
        ensures
            final(self).wf(),
            final(self).same_job(*old(self)),
            final(self).spec_lines() == old(self).spec_lines() + section_lines(
                label@,
                data@.map_values(|item: T| item.lines(old(self).spec_boundaries())),
            ),
            data@.len() == 0 ==> final(self).spec_commands() == old(self).spec_commands(),
    {
        let ghost dim = self.spec_boundaries();
        let ghost groups = data@.map_values(|item: T| item.lines(dim));
        if data.len() != 0 {
            self.render_text(label, RenderParams::default().with_font_type(FontType::Italic));
            let ghost labelled = self.spec_lines();
            let mut i: usize = 0;
            while i < data.len()
                invariant
                    i <= data.len(),
                    self.wf(),
                    self.same_job(*old(self)),
                    dim == old(self).spec_boundaries(),
                    groups == data@.map_values(|item: T| item.lines(dim)),
                    self.spec_lines() == labelled + concat_all(groups.take(i as int)),
                decreases data.len() - i,
            {
                data[i].render_object(self);
                proof {
                    assert(groups.take(i + 1).drop_last() =~= groups.take(i as int));
                    assert(groups.take(i + 1).last() == groups[i as int]);
                    assert(self.spec_lines() =~= labelled + concat_all(groups.take(i + 1)));
                }
                i += 1;
            }
            proof {
                assert(groups.take(data@.len() as int) =~= groups);
                assert(self.spec_lines() =~= old(self).spec_lines() + section_lines(
                    label@,
                    groups,
                ));
            }
        } else {
            assert(self.spec_lines() =~= old(self).spec_lines() + section_lines(label@, groups));
        }
    }

    /// Sets the section of the periods of employment.
    pub fn render_experience(&mut self)
        requires
            old(self).wf(),
        ensures
            final(self).wf(),
            final(self).same_job(*old(self)),
            final(self).spec_lines() == old(self).spec_lines() + section_lines(
                "Experience"@,
                old(self).spec_cv()@.experience.map_values(
                    |item: ExperienceModel| experience_lines(item, old(self).spec_boundaries()),
                ),
            ),
    {
        let cv = self.cv;
        let ghost dim = self.spec_boundaries();
        assert(cv.experience@.map_values(|item: Experience| item.lines(dim))
            =~= cv@.experience.map_values(|item: ExperienceModel| experience_lines(item, dim)));
        self.render_data_vector(&cv.experience, "Experience");
    }

    /// Sets the section of the periods of study.
    pub fn render_education(&mut self)
        requires
            old(self).wf(),
        ensures
            final(self).wf(),
            final(self).same_job(*old(self)),
            final(self).spec_lines() == old(self).spec_lines() + section_lines(
                "Education"@,
                old(self).spec_cv()@.education.map_values(
                    |item: EducationModel| education_lines(item, old(self).spec_boundaries()),
                ),
            ),
    {
        let cv = self.cv;
        let ghost dim = self.spec_boundaries();
        assert(cv.education@.map_values(|item: Education| item.lines(dim))
            =~= cv@.education.map_values(|item: EducationModel| education_lines(item, dim)));
        self.render_data_vector(&cv.education, "Education");
    }

    /// Sets the section of the languages.
    pub fn render_languages(&mut self)
        requires
            old(self).wf(),
        ensures
            final(self).wf(),
            final(self).same_job(*old(self)),
            final(self).spec_lines() == old(self).spec_lines() + section_lines(
                "Languages"@,
                old(self).spec_cv()@.languages.map_values(
                    |item: LangModel| lang_lines(item, old(self).spec_boundaries()),
                ),
            ),
    {
        let cv = self.cv;
        let ghost dim = self.spec_boundaries();
        assert(cv.languages@.map_values(|item: Lang| item.lines(dim))
            =~= cv@.languages.map_values(|item: LangModel| lang_lines(item, dim)));
        self.render_data_vector(&cv.languages, "Languages");
    }

    /// Sets the whole CV below what has been set already and hands out the
    /// draw commands: the header, then the sections of experience, education
    /// and languages, each left out where it has no item. The commands stand
    /// one line height below one another from the first row.
    pub fn render(self) -> (commands: Vec<DrawCommand>)
        requires
            self.wf(),
        ensures
            command_models(commands@) == place(
                self.spec_lines() + cv_lines(self.spec_cv()@, self.spec_boundaries()),
                self.start_row(),
            ),
    {
        let mut renderer = self;
        renderer.render_basic_info();
        renderer.render_experience();
        renderer.render_education();
        renderer.render_languages();
        proof {
            assert(renderer.spec_lines() =~= self.spec_lines() + cv_lines(
                self.spec_cv()@,
                self.spec_boundaries(),
            ));
        }
        renderer.commands
    }
}

impl Renderable for Experience {
    open spec fn lines(&self, dim: SheetDim) -> Seq<LineModel> {
        experience_lines(self@, dim)
    }

    fn render_object(&self, renderer: &mut Renderer) {
        let offset = renderer.boundaries.item_offset();
        let span = self.span.to_string();
        let title = self.employer.clone().concat("   ").concat(span.as_str());
        renderer.render_text(
            title.as_str(),
            RenderParams::default().with_font_type(FontType::Bold).with_offset(offset),
        );
        renderer.render_text(
            self.job_name.as_str(),
            RenderParams::default().with_font_type(FontType::Italic).with_offset(offset),
        );
        renderer.render_text(self.description.as_str(), RenderParams::default().with_offset(offset));
        assert(renderer.spec_lines() =~= old(renderer).spec_lines() + self.lines(
            old(renderer).spec_boundaries(),
        ));
    }
}

impl Renderable for Education {
    open spec fn lines(&self, dim: SheetDim) -> Seq<LineModel> {
        education_lines(self@, dim)
    }

    fn render_object(&self, renderer: &mut Renderer) {
        let offset = renderer.boundaries.item_offset();
        let span = self.span.to_string();
        let title = self.field_of_study.clone().concat("   ").concat(span.as_str());
        renderer.render_text(
            title.as_str(),
            RenderParams::default().with_font_type(FontType::Bold).with_offset(offset),
        );
        renderer.render_text(
            self.degree.as_str(),
            RenderParams::default().with_font_type(FontType::Italic).with_offset(offset),
        );
        renderer.render_text(self.uni_name.as_str(), RenderParams::default().with_offset(offset));
        assert(renderer.spec_lines() =~= old(renderer).spec_lines() + self.lines(
            old(renderer).spec_boundaries(),
        ));
    }
}

impl Renderable for Lang {
    open spec fn lines(&self, dim: SheetDim) -> Seq<LineModel> {
        lang_lines(self@, dim)
    }

    fn render_object(&self, renderer: &mut Renderer) {
        let offset = renderer.boundaries.item_offset();
        let notes_offset = renderer.boundaries.notes_offset();
        let title = self.language.to_string().concat(": ").concat(self.proficiency.description());
        renderer.render_text(title.as_str(), RenderParams::default().with_offset(offset));
        renderer.render_text(self.notes.as_str(), RenderParams::default().with_offset(notes_offset));
        assert(renderer.spec_lines() =~= old(renderer).spec_lines() + self.lines(
            old(renderer).spec_boundaries(),
        ));
    }
}

/// The draw commands that set `cv` on an A4 sheet.
pub fn render_commands(cv: &CV) -> (commands: Vec<DrawCommand>)
    ensures
        command_models(commands@) == place(
            cv_lines(cv@, SheetDim { width: 2100, height: 2970 }),
            2970 - TOP_MARGIN as int,
        ),
{
    let renderer = Renderer::new(cv, SheetDim::a4());
    assert(Seq::<LineModel>::empty() + cv_lines(cv@, renderer.spec_boundaries()) =~= cv_lines(
        cv@,
        renderer.spec_boundaries(),
    ));
    renderer.render()
}

/// The row on which a group of lines starts when the groups are set one
/// after the other from `start_row`.
pub open spec fn block_start_row(blocks: Seq<Seq<LineModel>>, index: int, start_row: int) -> int {
    start_row - LINE_HEIGHT as int * concat_all(blocks.take(index)).len()
}

/// Every line stands strictly below the lines set before it.
pub proof fn lemma_rows_descend(lines: Seq<LineModel>, start_row: int, first: int, second: int)
    requires
        0 <= first < second < lines.len(),
    ensures
        place(lines, start_row)[second].row < place(lines, start_row)[first].row,
{
}

/// Of two blocks set one after the other, the second starts strictly below
/// the first, as long as the first holds a line.
pub proof fn lemma_blocks_descend(blocks: Seq<Seq<LineModel>>, index: int, start_row: int)
    requires
        0 <= index,
        index + 1 < blocks.len(),
        blocks[index].len() > 0,
    ensures
        block_start_row(blocks, index + 1, start_row) < block_start_row(blocks, index, start_row),
{
    assert(blocks.take(index + 1).drop_last() =~= blocks.take(index));
    assert(blocks.take(index + 1).last() == blocks[index]);
}

/// Every block that a CV is set in holds a line: the header at least the
/// name, and with a date of birth at least two; a period of employment or of
/// study three, a language entry two.
pub proof fn lemma_blocks_hold_lines(cv: CVModel, dim: SheetDim)
    ensures
        basic_lines(cv.basic).len() >= 1,
        cv.basic.dob is Some ==> basic_lines(cv.basic).len() >= 2,
        forall|i: int|
            0 <= i < cv.experience.len() ==> (#[trigger] experience_lines(
                cv.experience[i],
                dim,
            )).len() == 3,
        forall|i: int|
            0 <= i < cv.education.len() ==> (#[trigger] education_lines(cv.education[i], dim)).len()
                == 3,
        forall|i: int|
            0 <= i < cv.languages.len() ==> (#[trigger] lang_lines(cv.languages[i], dim)).len()
                == 2,
{
}

/// A section without items sets nothing, not even its label.
pub proof fn lemma_empty_section_sets_nothing(label: Seq<char>)
    ensures
        section_lines(label, Seq::<Seq<LineModel>>::empty()) == Seq::<LineModel>::empty(),
{
}

/// A CV whose three lists are empty is set as its header alone.
pub proof fn lemma_empty_lists_leave_header(cv: CVModel, dim: SheetDim)
    requires
        cv.experience.len() == 0,
        cv.education.len() == 0,
        cv.languages.len() == 0,
    ensures
        cv_lines(cv, dim) == basic_lines(cv.basic),
{
    assert(cv_lines(cv, dim) =~= basic_lines(cv.basic));
}

} // verus!
