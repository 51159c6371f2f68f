//! Fuzzy search over snippets: the candidates that a session shows, the
//! settings of the session, and what the user chose in it.

use vstd::prelude::*;
use crate::errors::LostTheWay;
use crate::language::{resolved, Language, LanguageView, Languages};
use crate::snippet::{header_text, Snippet, SnippetView};
use crate::text::concat_lines;

verus! {

/// A snippet made searchable: the snippet with its header and its code as
/// they are shown, both rendered before the session starts. It is built
/// once and never changed.
#[derive(Debug)]
pub struct SearchSnippet {
    snippet: Snippet,
    /// Highlighted title
    text_highlight: String,
    /// Highlighted code
    code_highlight: String,
}

/// What a `SearchSnippet` holds, as plain values.
pub struct SearchSnippetView {
    pub snippet: SnippetView,
    pub text_highlight: Seq<char>,
    pub code_highlight: Seq<char>,
}

/// The text that a render leaves: its lines one after the other, or
/// nothing at all where the render failed.
pub open spec fn rendered_text<E>(outcome: Result<Vec<String>, E>) -> Seq<char> {
    match outcome {
        Ok(lines) => lines.deep_view().flatten(),
        Err(_) => Seq::empty(),
    }
}

impl View for SearchSnippet {
    type V = SearchSnippetView;

    closed spec fn view(&self) -> SearchSnippetView {
        SearchSnippetView {
            snippet: self.snippet@,
            text_highlight: self.text_highlight@,
            code_highlight: self.code_highlight@,
        }
    }
}

impl Clone for SearchSnippet {
    /// A copy that holds the same values.
    fn clone(&self) -> (copy: SearchSnippet)
        ensures
            copy@ == self@,
    {
        SearchSnippet {
            snippet: self.snippet.clone(),
            text_highlight: self.text_highlight.clone(),
            code_highlight: self.code_highlight.clone(),
        }
    }
}

impl SearchSnippetView {
    /// The candidate for `snippet`, given how its header and its code were
    /// rendered.
    pub open spec fn built<E>(
        snippet: SnippetView,
        header: Result<Vec<String>, E>,
        code: Result<Vec<String>, E>,
    ) -> SearchSnippetView {
        SearchSnippetView {
            snippet,
            text_highlight: rendered_text(header),
            code_highlight: rendered_text(code),
        }
    }

    /// The text that a query is matched against: the plain header of the
    /// snippet. How the candidate is rendered has no part in it.
    pub open spec fn match_text(self) -> Seq<char> {
        header_text(self.snippet)
    }
}

impl SearchSnippet {
    /// The candidate for `snippet`, given how its header and its code were
    /// rendered. A render that failed leaves that part empty.
    pub fn new<E>(
        snippet: Snippet,
        header: Result<Vec<String>, E>,
        code: Result<Vec<String>, E>,
    ) -> (candidate: SearchSnippet)
        ensures
            candidate@ == SearchSnippetView::built(snippet@, header, code),
    {
        let text_highlight = match &header {
            Ok(lines) => concat_lines(lines),
            Err(_) => String::new(),
        };
        let code_highlight = match &code {
            Ok(lines) => concat_lines(lines),
            Err(_) => String::new(),
        };
        SearchSnippet { snippet, text_highlight, code_highlight }
    }

    /// The snippet that this candidate stands for.
    pub fn snippet(&self) -> (snippet: &Snippet)
        ensures
            snippet@ == self@.snippet,
    {
        &self.snippet
    }

    /// The line shown in the list of candidates: the highlighted header.
    pub fn display(&self) -> (line: &str)
        ensures
            line@ == self@.text_highlight,
    {
        self.text_highlight.as_str()
    }

    /// The text that a query is matched against.
    pub fn text(&self) -> (text: String)
        ensures
            text@ == self@.match_text(),
    {
        self.snippet.get_header()
    }

    /// The content of the preview pane: the highlighted code.
    pub fn preview(&self) -> (pane: &str)
        ensures
            pane@ == self@.code_highlight,
    {
        self.code_highlight.as_str()
    }
}

/// Whether `preview` is what `render_code` can leave for `snippet`.
pub open spec fn code_rendered<E, C: Fn(&Snippet) -> Result<Vec<String>, E>>(
    render_code: C,
    snippet: Snippet,
    preview: Seq<char>,
) -> bool {
    exists|outcome: Result<Vec<String>, E>|
        call_ensures(render_code, (&snippet,), outcome) && preview == rendered_text(outcome)
}

/// Whether `line` is what `render_header` can leave for `snippet` when it
/// is given the profile `language`.
pub open spec fn header_rendered<E, H: Fn(&Snippet, &Language) -> Result<Vec<String>, E>>(
    render_header: H,
    snippet: Snippet,
    language: LanguageView,
    line: Seq<char>,
) -> bool {
    exists|profile: Language, outcome: Result<Vec<String>, E>|
        profile@ == language && call_ensures(render_header, (&snippet, &profile), outcome) && line
            == rendered_text(outcome)
}

/// Whether `candidates` stand for `snippets`: one candidate for each
/// snippet, in the same order.
pub open spec fn stand_for(candidates: Seq<SearchSnippet>, snippets: Seq<Snippet>) -> bool {
    &&& candidates.len() == snippets.len()
    &&& forall|i: int|
        0 <= i < snippets.len() ==> (#[trigger] candidates[i])@.snippet == snippets[i]@
}

/// Converts a list of snippets into searchable candidates, one for each
/// snippet and in the same order. The header of a snippet is rendered with
/// the profile of its language, or with the fallback profile where the
/// language is not registered; its code is rendered as it is. A render that
/// fails leaves that part of the candidate empty, and the others untouched.
pub fn make_search<E, H, C>(
    snippets: Vec<Snippet>,
    languages: &Languages,
    render_header: H,
    render_code: C,
) -> (candidates: Vec<SearchSnippet>) where
    H: Fn(&Snippet, &Language) -> Result<Vec<String>, E>,
    C: Fn(&Snippet) -> Result<Vec<String>, E>,

    requires
        forall|i: int, profile: Language|
            0 <= i < snippets.len() && profile@ == resolved(
                languages@,
                snippets[i]@.language,
                Language::fallback(),
            ) ==> call_requires(render_header, (&snippets[i], &profile)),
        forall|i: int| 0 <= i < snippets.len() ==> call_requires(render_code, (&snippets[i],)),
    ensures
        candidates.len() == snippets.len(),
        stand_for(candidates@, snippets@),
        forall|i: int|
            0 <= i < snippets.len() ==> {
                &&& header_rendered(
                    render_header,
                    snippets[i],
                    resolved(languages@, snippets[i]@.language, Language::fallback()),
                    (#[trigger] candidates[i])@.text_highlight,
                )
                &&& code_rendered(render_code, snippets[i], candidates[i]@.code_highlight)
            },
{
    let default_language = Language::default();
    let mut candidates: Vec<SearchSnippet> = Vec::new();
    for snippet in all: snippets
        invariant
            all.seq() == snippets@,
            candidates.len() == all.index(),
            default_language@ == Language::fallback(),
            forall|i: int, profile: Language|
                0 <= i < snippets.len() && profile@ == resolved(
                    languages@,
                    snippets[i]@.language,
                    Language::fallback(),
                ) ==> call_requires(render_header, (&snippets[i], &profile)),
            forall|i: int| 0 <= i < snippets.len() ==> call_requires(render_code, (&snippets[i],)),
            forall|i: int|
                0 <= i < candidates.len() ==> {
                    &&& (#[trigger] candidates[i])@.snippet == snippets[i]@
                    &&& header_rendered(
                        render_header,
                        snippets[i],
                        resolved(languages@, snippets[i]@.language, Language::fallback()),
                        candidates[i]@.text_highlight,
                    )
                    &&& code_rendered(render_code, snippets[i], candidates[i]@.code_highlight)
                },
    {
        let code = render_code(&snippet);
        let language = languages.resolve(snippet.language(), &default_language);
        let header = render_header(&snippet, language);
        let candidate = SearchSnippet::new(snippet, header, code);
        candidates.push(candidate);
    }
    candidates
}

/// Styling never changes what is matched: however the header and the code
/// of a snippet are rendered, and whether the renders fail, the text that a
/// query is matched against is the plain header of the snippet.
pub proof fn lemma_match_text_ignores_styling<E>(
    snippet: SnippetView,
    header: Result<Vec<String>, E>,
    code: Result<Vec<String>, E>,
    other_header: Result<Vec<String>, E>,
    other_code: Result<Vec<String>, E>,
)
    ensures
        SearchSnippetView::built(snippet, header, code).match_text() == header_text(snippet),
        SearchSnippetView::built(snippet, header, code).match_text() == SearchSnippetView::built(
            snippet,
            other_header,
            other_code,
        ).match_text(),
{
}

/// A render that leaves no character leaves no text.
proof fn lemma_blank_lines_flatten_to_nothing(lines: Seq<Seq<char>>)
    requires
        forall|i: int| 0 <= i < lines.len() ==> (#[trigger] lines[i]).len() == 0,
    ensures
        lines.flatten() == Seq::<char>::empty(),
    decreases lines.len(),
{
    if lines.len() > 0 {
        lemma_blank_lines_flatten_to_nothing(lines.drop_first());
    }
}

/// A snippet without code has a preview all the same, and an empty one,
/// where the render of its code fails or leaves no character.
pub proof fn lemma_empty_code_empty_preview<E>(
    snippet: SnippetView,
    header: Result<Vec<String>, E>,
    code: Result<Vec<String>, E>,
)
    requires
        snippet.code.len() == 0,
        code matches Ok(lines) ==> forall|i: int|
            0 <= i < lines.len() ==> (#[trigger] lines[i])@.len() == 0,
    ensures
        SearchSnippetView::built(snippet, header, code).code_highlight == Seq::<char>::empty(),
{
    if let Ok(lines) = code {
        lemma_blank_lines_flatten_to_nothing(lines.deep_view());
    }
}

/// Building the candidates again changes no match text: two lists that
/// stand for the same snippets agree, candidate by candidate, on the text
/// that a query is matched against.
pub proof fn lemma_rebuilding_keeps_match_text(
    snippets: Seq<Snippet>,
    first: Seq<SearchSnippet>,
    second: Seq<SearchSnippet>,
)
    requires
        stand_for(first, snippets),
        stand_for(second, snippets),
    ensures
        first.len() == second.len(),
        forall|i: int|
            0 <= i < snippets.len() ==> (#[trigger] first[i])@.match_text() == second[i]@.match_text(),
{
}

/// The settings of a search session. All but the colour of the current
/// line are fixed: the window takes the whole height of the terminal, the
/// preview pane takes the upper 70% of it and shows what each candidate
/// brings along, several candidates can be selected, and the input line
/// stands above the results.
#[derive(Debug)]
pub struct SearchConfig {
    height: String,
    preview: String,
    preview_window: String,
    multi: bool,
    reverse: bool,
    color: String,
}

/// What a `SearchConfig` holds, as plain values.
pub struct SearchConfigView {
    pub height: Seq<char>,
    pub preview: Seq<char>,
    pub preview_window: Seq<char>,
    pub multi: bool,
    pub reverse: bool,
    pub color: Seq<char>,
}

/// The settings of a session whose current line is highlighted in
/// `highlight_color`.
pub open spec fn session_settings(highlight_color: Seq<char>) -> SearchConfigView {
    SearchConfigView {
        height: "100%"@,
        preview: ""@,
        preview_window: "up:70%"@,
        multi: true,
        reverse: true,
        color: "bg+:"@ + highlight_color,
    }
}

/// Whether these are the settings of a session, whatever its colour.
pub open spec fn is_session_settings(settings: SearchConfigView) -> bool {
    exists|highlight_color: Seq<char>| settings == session_settings(highlight_color)
}

impl View for SearchConfig {
    type V = SearchConfigView;

    closed spec fn view(&self) -> SearchConfigView {
        SearchConfigView {
            height: self.height@,
            preview: self.preview@,
            preview_window: self.preview_window@,
            multi: self.multi,
            reverse: self.reverse,
            color: self.color@,
        }
    }
}

impl SearchConfig {
    /// Only the colour is ever chosen.
    #[verifier::type_invariant]
    spec fn fixed_but_color(self) -> bool {
        is_session_settings(self@)
    }

    /// The settings of a session whose current line is highlighted in
    /// `highlight_color`.
    pub fn new(highlight_color: &str) -> (config: SearchConfig)
        ensures
            config@ == session_settings(highlight_color@),
    {
        let height = String::from_str("100%");
        let preview = String::from_str("");
        let preview_window = String::from_str("up:70%");
        let mut color = String::from_str("bg+:");
        color.append(highlight_color);
        assert((SearchConfigView {
            height: height@,
            preview: preview@,
            preview_window: preview_window@,
            multi: true,
            reverse: true,
            color: color@,
        }) == session_settings(highlight_color@));
        SearchConfig { height, preview, preview_window, multi: true, reverse: true, color }
    }

    /// The height of the window.
    pub fn height(&self) -> (height: &str)
        ensures
            height@ == self@.height,
            is_session_settings(self@),
    {
        proof {
            use_type_invariant(self);
        }
        self.height.as_str()
    }

    /// The command that fills the preview pane: none, since each candidate
    /// brings its own preview.
    pub fn preview(&self) -> (preview: &str)
        ensures
            preview@ == self@.preview,
            is_session_settings(self@),
    {
        proof {
            use_type_invariant(self);
        }
        self.preview.as_str()
    }

    /// Where the preview pane stands and how much of the window it takes.
    pub fn preview_window(&self) -> (preview_window: &str)
        ensures
            preview_window@ == self@.preview_window,
            is_session_settings(self@),
    {
        proof {
            use_type_invariant(self);
        }
        self.preview_window.as_str()
    }

    /// Whether several candidates can be selected.
    pub fn multi(&self) -> (multi: bool)
        ensures
            multi == self@.multi,
            multi,
    {
        proof {
            use_type_invariant(self);
        }
        self.multi
    }

    /// Whether the input line stands above the results.
    pub fn reverse(&self) -> (reverse: bool)
        ensures
            reverse == self@.reverse,
            reverse,
    {
        proof {
            use_type_invariant(self);
        }
        self.reverse
    }

    /// The colour setting: the current line's background.
    pub fn color(&self) -> (color: &str)
        ensures
            color@ == self@.color,
            is_session_settings(self@),
    {
        proof {
            use_type_invariant(self);
        }
        self.color.as_str()
    }
}

/// `skim::SkimOptions`, the options of a `skim` session. They are carried
/// from where they are built to where the session is run, and never looked
/// into.
#[verifier::external_type_specification]
#[verifier::external_body]
pub struct ExSkimOptions<'a>(skim::SkimOptions<'a>);

/// The options that `skim`'s `SkimOptionsBuilder` builds when it is given
/// these settings and nothing else: what it was given, and `skim`'s own
/// default for every other option.
pub uninterp spec fn options_for(config: SearchConfigView) -> skim::SkimOptions<'static>;

/// Builds the options of a `skim` session with `skim`'s
/// `SkimOptionsBuilder`: each setting of `config` is handed to the setter
/// of its name, and `build` is called. Two things are claimed of `build`.
/// It succeeds: `SkimOptions` has a default for the whole struct, so the
/// builder takes from it whatever was not set, checks nothing, and has no
/// path that ends in an error. And what it builds is what `options_for`
/// names: the options depend on the settings handed over and on nothing
/// else.
#[verifier::external_body]
fn build_options<'a>(config: &'a SearchConfig) -> (built: Result<skim::SkimOptions<'a>, String>)
    ensures
        built is Ok,
        built->Ok_0 == options_for(config@),
{
    skim::prelude::SkimOptionsBuilder::default()
        .height(Some(config.height.as_str()))
        .preview(Some(config.preview.as_str()))
        .preview_window(Some(config.preview_window.as_str()))
        .multi(config.multi)
        .reverse(config.reverse)
        .color(Some(config.color.as_str()))
        .build()
}

/// The options of a session, or a `SearchError` where they could not be
/// built.
pub fn options_or_error<'a>(built: Result<skim::SkimOptions<'a>, String>) -> (options: Result<
    skim::SkimOptions<'a>,
    LostTheWay,
>)
    ensures
        match built {
            Ok(inner) => options == Ok::<skim::SkimOptions<'a>, LostTheWay>(inner),
            Err(_) => options == Err::<skim::SkimOptions<'a>, LostTheWay>(LostTheWay::SearchError),
        },
{
    match built {
        Ok(inner) => Ok(inner),
        Err(_) => Err(LostTheWay::SearchError),
    }
}

/// The options with which the session for `config` is run: those that
/// the engine builds from the settings of `config`. The engine builds them
/// from any settings of a session, so this succeeds for every `config`;
/// were the engine ever to refuse, the refusal would come out as a
/// `SearchError`, as `options_or_error` says.
pub fn search_options<'a>(config: &'a SearchConfig) -> (options: Result<
    skim::SkimOptions<'a>,
    LostTheWay,
>)
    ensures
        options is Ok,
        options->Ok_0 == options_for(config@),
{
    options_or_error(build_options(config))
}

/// How a session ended, as far as the search reads it.
#[derive(Debug)]
pub struct SearchOutput {
    /// Whether the user left the session without confirming.
    pub is_abort: bool,
    /// The candidates that were selected when the session ended, in the
    /// order in which the engine reports them.
    pub selected_items: Vec<SearchSnippet>,
}

/// What the user chose: the selected candidates of a session that was
/// confirmed, and nothing for one that was aborted or never ran.
pub open spec fn chosen(output: Option<SearchOutput>) -> Seq<SearchSnippet> {
    match output {
        Some(end) => if end.is_abort {
            Seq::empty()
        } else {
            end.selected_items@
        },
        None => Seq::empty(),
    }
}

/// The candidates that the user confirmed, in the engine's order. A session
/// that was aborted gives none: that is a result, not an error.
pub fn selected_items(output: Option<SearchOutput>) -> (selected: Vec<SearchSnippet>)
    ensures
        selected@ == chosen(output),
{
    match output {
        Some(end) => if end.is_abort {
            Vec::new()
        } else {
            end.selected_items
        },
        None => Vec::new(),
    }
}

} // verus!
