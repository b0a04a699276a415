use vstd::prelude::*;

use crate::config::{classify, Config, GotifyFormat, GotifyPriority};
use crate::errors::RelayError;
use crate::models::{Application, GotifyMessage};

verus! {

/// Which of the two representations a template produces.
#[derive(Clone, Copy, Debug, PartialEq, Eq, Structural)]
pub enum TemplateKind {
    Plain,
    Html,
}

/// The fields a template can refer to: application name, optional
/// title and body text of one notification.
pub struct Message {
    pub app: String,
    pub title: Option<String>,
    pub message: String,
}

/// The two destination-ready representations of one rendered
/// notification.
pub struct RenderedContent {
    pub plain: String,
    pub html: String,
}

/// What the title field renders as: the title, or empty when absent.
pub open spec fn title_view(title: Option<String>) -> Seq<char> {
    match title {
        Some(t) => t@,
        None => Seq::empty(),
    }
}

/// The view of an optional template string.
pub open spec fn opt_view(t: Option<String>) -> Option<Seq<char>> {
    match t {
        Some(s) => Some(s@),
        None => None,
    }
}

/// The text the template engine produces for the given template and
/// message fields, or `None` when rendering fails at runtime. The
/// outcome depends on the template and the fields alone.
pub uninterp spec fn render_of(
    template: Seq<char>,
    app: Seq<char>,
    title: Seq<char>,
    message: Seq<char>,
) -> Option<Seq<char>>;

/// Whether the template engine accepts the template text.
pub uninterp spec fn template_ok(template: Seq<char>) -> bool;

/// Relies on handlebars::Handlebars::register_template_string, whose
/// success depends on whether the template text parses, and on nothing
/// else.
#[verifier::external_body]
fn template_compiles(template: &str) -> (r: bool)
    ensures
        r == template_ok(template@),
{
    handlebars::Handlebars::new().register_template_string("t", template).is_ok()
}

/// Relies on handlebars::Handlebars::render_template: rendering on a
/// fresh default registry is a function of the template text and the
/// data handed in, and of nothing else.
#[verifier::external_body]
fn hb_render(template: &str, app: &str, title: &str, message: &str) -> (r: Option<String>)
    ensures
        r is Some <==> render_of(template@, app@, title@, message@) is Some,
        r is Some ==> r->0@ == render_of(template@, app@, title@, message@)->0,
{
    let registry = handlebars::Handlebars::new();
    let data = std::collections::BTreeMap::from([
        ("app", app),
        ("title", title),
        ("message", message),
    ]);
    registry.render_template(template, &data).ok()
}

/// A copy of a string, equal in content.
fn clone_string(s: &String) -> (r: String)
    ensures
        r@ == s@,
{
    String::from_str(s.as_str())
}

/// A copy of an optional string, equal in content and presence.
fn clone_opt_string(s: &Option<String>) -> (r: Option<String>)
    ensures
        opt_view(r) == opt_view(*s),
{
    match s {
        Option::Some(t) => Option::Some(String::from_str(t.as_str())),
        Option::None => Option::None,
    }
}

impl Message {
    /// The message rendered through the given template.
    pub fn render(&self, template: &str) -> (r: Result<String, RelayError>)
        ensures
            (r is Ok) == (render_of(
                template@,
                self.app@,
                title_view(self.title),
                self.message@,
            ) is Some),
            r is Ok ==> r->Ok_0@ == render_of(
                template@,
                self.app@,
                title_view(self.title),
                self.message@,
            )->0,
            r is Err ==> r == Err::<String, RelayError>(RelayError::RenderFailed),
    {
        let title: &str = match &self.title {
            Option::Some(t) => t.as_str(),
            Option::None => "",
        };
        proof {
            reveal_strlit("");
            assert(title@ =~= title_view(self.title));
        }
        match hb_render(template, self.app.as_str(), title, self.message.as_str()) {
            Option::Some(s) => Ok(s),
            Option::None => Err(RelayError::RenderFailed),
        }
    }
}

/// The name belonging to an application identifier: that of the first
/// table entry carrying it, if any.
pub open spec fn app_name(apps: Seq<Application>, appid: i64) -> Option<Seq<char>>
    decreases apps.len(),
{
    if apps.len() == 0 {
        None
    } else if apps[0].id == appid {
        Some(apps[0].name@)
    } else {
        app_name(apps.skip(1), appid)
    }
}

/// The index of the first application table entry with the given
/// identifier.
fn find_app_index(apps: &Vec<Application>, appid: i64) -> (r: Option<usize>)
    ensures
        match r {
            Some(i) => i < apps@.len() && apps@[i as int].id == appid && app_name(apps@, appid)
                == Some(apps@[i as int].name@),
            None => app_name(apps@, appid) is None,
        },
{
    let mut i: usize = 0;
    proof {
        assert(apps@.skip(0) =~= apps@);
    }
    while i < apps.len()
        invariant
            i <= apps@.len(),
            app_name(apps@, appid) == app_name(apps@.skip(i as int), appid),
        decreases apps@.len() - i,
    {
        proof {
            assert(apps@.skip(i as int)[0] == apps@[i as int]);
            assert(apps@.skip(i as int).skip(1) =~= apps@.skip(i + 1));
        }
        if apps[i].id == appid {
            return Some(i);
        }
        i = i + 1;
    }
    proof {
        assert(apps@.skip(i as int).len() == 0);
    }
    None
}

/// Renders notifications: the application lookup table, the base
/// templates, the per-tier overrides and the two thresholds, resolved
/// once at startup into an explicit mapping from tier and kind to
/// template.
pub struct Converter {
    pub apps: Vec<Application>,
    pub plain: String,
    pub html: String,
    pub low_format: GotifyFormat,
    pub normal_format: GotifyFormat,
    pub high_format: GotifyFormat,
    pub low: i32,
    pub high: i32,
}

/// Whether every template the configuration supplies — the two base
/// templates and each registered override — compiles.
pub open spec fn config_templates_ok(config: Config) -> bool {
    &&& template_ok(config.gotify.plain@)
    &&& template_ok(config.gotify.html@)
    &&& (config.gotify.low.plain is Some ==> template_ok(config.gotify.low.plain->0@))
    &&& (config.gotify.low.html is Some ==> template_ok(config.gotify.low.html->0@))
    &&& (config.gotify.normal.plain is Some ==> template_ok(config.gotify.normal.plain->0@))
    &&& (config.gotify.normal.html is Some ==> template_ok(config.gotify.normal.html->0@))
    &&& (config.gotify.high.plain is Some ==> template_ok(config.gotify.high.plain->0@))
    &&& (config.gotify.high.html is Some ==> template_ok(config.gotify.high.html->0@))
}

impl Converter {
    /// Whether this converter carries the given application table and
    /// the configuration's templates and thresholds, in content.
    pub open spec fn mirrors(self, apps: Seq<Application>, config: Config) -> bool {
        &&& self.apps@ == apps
        &&& self.plain@ == config.gotify.plain@
        &&& self.html@ == config.gotify.html@
        &&& opt_view(self.low_format.plain) == opt_view(config.gotify.low.plain)
        &&& opt_view(self.low_format.html) == opt_view(config.gotify.low.html)
        &&& opt_view(self.normal_format.plain) == opt_view(config.gotify.normal.plain)
        &&& opt_view(self.normal_format.html) == opt_view(config.gotify.normal.html)
        &&& opt_view(self.high_format.plain) == opt_view(config.gotify.high.plain)
        &&& opt_view(self.high_format.html) == opt_view(config.gotify.high.html)
        &&& self.low == config.gotify.threshold_low
        &&& self.high == config.gotify.threshold_high
    }

    /// The override registered for this tier and kind, if any.
    pub open spec fn override_view(self, kind: TemplateKind, prio: GotifyPriority) -> Option<
        Seq<char>,
    > {
        let fmt = match prio {
            GotifyPriority::Low => self.low_format,
            GotifyPriority::Normal => self.normal_format,
            GotifyPriority::High => self.high_format,
        };
        match kind {
            TemplateKind::Plain => opt_view(fmt.plain),
            TemplateKind::Html => opt_view(fmt.html),
        }
    }

    /// The base template for a kind.
    pub open spec fn base_view(self, kind: TemplateKind) -> Seq<char> {
        match kind {
            TemplateKind::Plain => self.plain@,
            TemplateKind::Html => self.html@,
        }
    }

    /// The selection rule: the tier's override when one is registered,
    /// else the base template of the kind.
    pub open spec fn selected_view(self, kind: TemplateKind, prio: GotifyPriority) -> Seq<char> {
        match self.override_view(kind, prio) {
            Some(t) => t,
            None => self.base_view(kind),
        }
    }

    /// What rendering message `m` at tier `prio` as `kind` yields.
    pub open spec fn render_spec(self, m: Message, kind: TemplateKind, prio: GotifyPriority) -> Option<
        Seq<char>,
    > {
        render_of(self.selected_view(kind, prio), m.app@, title_view(m.title), m.message@)
    }

    /// Builds the renderer from the fetched application table and the
    /// configuration, checking every supplied template at startup so
    /// that the relay never starts with an unusable template.
    pub fn new(apps: Vec<Application>, config: &Config) -> (r: Result<Converter, RelayError>)
        ensures
            (r is Ok) == config_templates_ok(*config),
            r is Ok ==> r->Ok_0.mirrors(apps@, *config),
            r is Err ==> r == Err::<Converter, RelayError>(RelayError::InvalidTemplate),
    {
        if !template_compiles(config.gotify.plain.as_str()) {
            return Err(RelayError::InvalidTemplate);
        }
        if !template_compiles(config.gotify.html.as_str()) {
            return Err(RelayError::InvalidTemplate);
        }
        let low_format = match check_format(&config.gotify.low) {
            Ok(f) => f,
            Err(e) => return Err(e),
        };
        let normal_format = match check_format(&config.gotify.normal) {
            Ok(f) => f,
            Err(e) => return Err(e),
        };
        let high_format = match check_format(&config.gotify.high) {
            Ok(f) => f,
            Err(e) => return Err(e),
        };
        Ok(
            Converter {
                apps,
                plain: clone_string(&config.gotify.plain),
                html: clone_string(&config.gotify.html),
                low_format,
                normal_format,
                high_format,
                low: config.gotify.threshold_low,
                high: config.gotify.threshold_high,
            },
        )
    }

    /// Renders one message for a tier and kind, falling back to the
    /// base template where the tier has no override.
    pub fn render(&self, message: &Message, kind: TemplateKind, prio: GotifyPriority) -> (r:
        Result<String, RelayError>)
        ensures
            (r is Ok) == (self.render_spec(*message, kind, prio) is Some),
            r is Ok ==> r->Ok_0@ == self.render_spec(*message, kind, prio)->0,
            r is Err ==> r == Err::<String, RelayError>(RelayError::RenderFailed),
    {
        let fmt = match prio {
            GotifyPriority::Low => &self.low_format,
            GotifyPriority::Normal => &self.normal_format,
            GotifyPriority::High => &self.high_format,
        };
        let template: &String = match kind {
            TemplateKind::Plain => match &fmt.plain {
                Option::Some(t) => t,
                Option::None => &self.plain,
            },
            TemplateKind::Html => match &fmt.html {
                Option::Some(t) => t,
                Option::None => &self.html,
            },
        };
        message.render(template.as_str())
    }

    /// What converting one upstream message yields: the rendered pair,
    /// or the error if the application is unknown or a template fails
    /// on this message.
    pub open spec fn convert_spec(self, msg: GotifyMessage) -> Result<
        (Seq<char>, Seq<char>),
        RelayError,
    > {
        match app_name(self.apps@, msg.appid) {
            None => Err(RelayError::UnknownApp),
            Some(app) => {
                let prio = classify(msg.priority as int, self.low as int, self.high as int);
                let plain = render_of(
                    self.selected_view(TemplateKind::Plain, prio),
                    app,
                    title_view(msg.title),
                    msg.message@,
                );
                let html = render_of(
                    self.selected_view(TemplateKind::Html, prio),
                    app,
                    title_view(msg.title),
                    msg.message@,
                );
                if plain is None || html is None {
                    Err(RelayError::RenderFailed)
                } else {
                    Ok((plain->0, html->0))
                }
            },
        }
    }

    /// Classifies one upstream message, looks its application up, and
    /// renders both representations through the tier's templates.
    pub fn convert(&self, message: &GotifyMessage) -> (r: Result<RenderedContent, RelayError>)
        ensures
            (r is Ok) == (self.convert_spec(*message) is Ok),
            r is Ok ==> r->Ok_0.plain@ == self.convert_spec(*message)->Ok_0.0,
            r is Ok ==> r->Ok_0.html@ == self.convert_spec(*message)->Ok_0.1,
            r is Err ==> r->Err_0 == self.convert_spec(*message)->Err_0,
    {
        let app = match find_app_index(&self.apps, message.appid) {
            Option::Some(i) => clone_string(&self.apps[i].name),
            Option::None => {
                return Err(RelayError::UnknownApp);
            },
        };
        let prio = GotifyPriority::from_thresholds(message.priority as i32, self.low, self.high);
        let m = Message {
            app,
            title: clone_opt_string(&message.title),
            message: clone_string(&message.message),
        };
        let plain = match self.render(&m, TemplateKind::Plain, prio) {
            Ok(s) => s,
            Err(e) => {
                return Err(e);
            },
        };
        let html = match self.render(&m, TemplateKind::Html, prio) {
            Ok(s) => s,
            Err(e) => {
                return Err(e);
            },
        };
        Ok(RenderedContent { plain, html })
    }
}

/// Checks the two optional templates of one tier and copies them.
fn check_format(format: &GotifyFormat) -> (r: Result<GotifyFormat, RelayError>)
    ensures
        (r is Ok) == ((format.plain is Some ==> template_ok(format.plain->0@)) && (
        format.html is Some ==> template_ok(format.html->0@))),
        r is Ok ==> opt_view(r->Ok_0.plain) == opt_view(format.plain) && opt_view(r->Ok_0.html)
            == opt_view(format.html),
        r is Err ==> r == Err::<GotifyFormat, RelayError>(RelayError::InvalidTemplate),
{
    let plain = match &format.plain {
        Option::Some(t) => {
            if !template_compiles(t.as_str()) {
                return Err(RelayError::InvalidTemplate);
            }
            Option::Some(String::from_str(t.as_str()))
        },
        Option::None => Option::None,
    };
    let html = match &format.html {
        Option::Some(t) => {
            if !template_compiles(t.as_str()) {
                return Err(RelayError::InvalidTemplate);
            }
            Option::Some(String::from_str(t.as_str()))
        },
        Option::None => Option::None,
    };
    Ok(GotifyFormat { plain, html })
}

/// Template fallback: for a tier with no registered override, `render`
/// yields exactly what the base template of that kind yields.
pub proof fn lemma_template_fallback(
    c: Converter,
    m: Message,
    kind: TemplateKind,
    prio: GotifyPriority,
)
    requires
        c.override_view(kind, prio) is None,
    ensures
        c.render_spec(m, kind, prio) == render_of(
            c.base_view(kind),
            m.app@,
            title_view(m.title),
            m.message@,
        ),
{
}

} // verus!
