//! The rules that the engine is given.

use vstd::prelude::*;

verus! {

/// The base configuration, with the settings that the regression tests of the rule set expect.
pub const BASE_RULES: &'static str = r#"SecAction "id:900005,\
      phase:1,\
      nolog,\
      pass,\
      ctl:ruleEngine=DetectionOnly,\
      ctl:ruleRemoveById=910000,\
      setvar:tx.blocking_paranoia_level=4,\
      setvar:tx.crs_validate_utf8_encoding=1,\
      setvar:tx.arg_name_length=100,\
      setvar:tx.arg_length=400,\
      setvar:tx.total_arg_length=64000,\
      setvar:tx.max_num_args=255,\
      setvar:tx.max_file_size=64100,\
      setvar:tx.combined_file_sizes=65535"#;

/// The defaults of the response phases, the same settings once more, and the marker rule, which
/// writes the value of the `X-CRS-Test` header to the log and switches the other rules off.
pub const MARKER_RULES: &'static str = r#"
           SecResponseBodyMimeType text/plain
           SecDefaultAction "phase:3,log,auditlog,pass"
           SecDefaultAction "phase:4,log,auditlog,pass"
           SecDefaultAction "phase:5,log,auditlog,pass"

           # Rule 900005 from https://github.com/coreruleset/coreruleset/blob/v4.0/dev/tests/regression/README.md#requirements
           SecAction "id:900005,\
             phase:1,\
             nolog,\
             pass,\
             ctl:ruleEngine=DetectionOnly,\
             ctl:ruleRemoveById=910000,\
             setvar:tx.blocking_paranoia_level=4,\
             setvar:tx.crs_validate_utf8_encoding=1,\
             setvar:tx.arg_name_length=100,\
             setvar:tx.arg_length=400,\
             setvar:tx.total_arg_length=64000,\
             setvar:tx.max_num_args=255,\
             setvar:tx.max_file_size=64100,\
             setvar:tx.combined_file_sizes=65535"

           # Write the value from the X-CRS-Test header as a marker to the log
           # Requests with X-CRS-Test header will not be matched by any rule. See https://github.com/coreruleset/go-ftw/pull/133
           SecRule REQUEST_HEADERS:X-CRS-Test "@rx ^.*$" \
             "id:999999,\
             phase:1,\
             pass,\
             t:none,\
             log,\
             auditlog,\
             msg:'X-CRS-Test %{MATCHED_VAR}',\
             ctl:ruleRemoveById=1-999999"
           "#;

/// The reporting level and the summary of the anomaly scores.
pub const REPORTING_RULES: &'static str = r#"# Force Reporting Level to 5 (Unconditional)
    SecAction \
        "id:999998,\
        phase:1,\
        pass,\
        nolog,\
        setvar:tx.reporting_level=5"

        # Inbound and outbound - all requests
        SecAction \
            "id:999996,\
            phase:5,\
            pass,\
            t:none,\
            noauditlog,\
            severity:'CRITICAL',\
            msg:'Anomaly Scores: \
        (Inbound Scores: blocking=%{tx.blocking_inbound_anomaly_score}, detection=%{tx.detection_inbound_anomaly_score}, per_pl=%{tx.inbound_anomaly_score_pl1}-%{tx.inbound_anomaly_score_pl2}-%{tx.inbound_anomaly_score_pl3}-%{tx.inbound_anomaly_score_pl4}, threshold=%{tx.inbound_anomaly_score_threshold}) - \
        (Outbound Scores: blocking=%{tx.blocking_outbound_anomaly_score}, detection=%{tx.detection_outbound_anomaly_score}, per_pl=%{tx.outbound_anomaly_score_pl1}-%{tx.outbound_anomaly_score_pl2}-%{tx.outbound_anomaly_score_pl3}-%{tx.outbound_anomaly_score_pl4}, threshold=%{tx.outbound_anomaly_score_threshold}) - \
        (SQLI=%{tx.sql_injection_score}, XSS=%{tx.xss_score}, RFI=%{tx.rfi_score}, LFI=%{tx.lfi_score}, RCE=%{tx.rce_score}, PHPI=%{tx.php_injection_score}, HTTP=%{tx.http_violation_score}, SESS=%{tx.session_fixation_score}, COMBINED_SCORE=%{tx.anomaly_score})',\
            tag:'reporting',\
            tag:'OWASP_CRS',\
            ver:'OWASP_CRS/4.21.0'"
        "#;

/// Where rules come from.
#[derive(Debug)]
pub enum RuleSource {
    /// Rules that are given as text.
    Plain(&'static str),
    /// Rules that stand in the file with this path.
    File(String),
}

/// The view of a [`RuleSource`].
pub enum RuleSourceView {
    Plain(Seq<char>),
    File(Seq<char>),
}

impl View for RuleSource {
    type V = RuleSourceView;

    open spec fn view(&self) -> RuleSourceView {
        match self {
            RuleSource::Plain(text) => RuleSourceView::Plain(text@),
            RuleSource::File(path) => RuleSourceView::File(path@),
        }
    }
}

/// The rules that the engine has before any file.
pub open spec fn built_in_rules() -> Seq<RuleSourceView> {
    seq![
        RuleSourceView::Plain(BASE_RULES@),
        RuleSourceView::Plain(MARKER_RULES@),
        RuleSourceView::Plain(REPORTING_RULES@),
    ]
}

/// All the rules, in the order in which the engine has to load them: the built-in ones and
/// those of the given files.
pub open spec fn all_rules(files: Seq<String>) -> Seq<RuleSourceView> {
    built_in_rules() + files.map_values(|f: String| RuleSourceView::File(f@))
}

/// The views of a list of rule sources.
pub open spec fn sources_view(sources: Seq<RuleSource>) -> Seq<RuleSourceView> {
    sources.map_values(|s: RuleSource| s@)
}

/// Lists, in the order in which the engine has to load them, the built-in rules and the given
/// rule files.
pub fn rule_sources(files: Vec<String>) -> (sources: Vec<RuleSource>)
    ensures
        sources_view(sources@) == all_rules(files@),
        sources@.len() == 3 + files@.len(),
        sources@[0] == RuleSource::Plain(BASE_RULES),
        sources@[1] == RuleSource::Plain(MARKER_RULES),
        sources@[2] == RuleSource::Plain(REPORTING_RULES),
        forall|k: int|
            0 <= k < files@.len() ==> ((#[trigger] sources@[3 + k]) matches RuleSource::File(path)
                && path@ == files@[k]@),
{
    let mut sources: Vec<RuleSource> = Vec::new();
    sources.push(RuleSource::Plain(BASE_RULES));
    sources.push(RuleSource::Plain(MARKER_RULES));
    sources.push(RuleSource::Plain(REPORTING_RULES));
    let mut i: usize = 0;
    while i < files.len()
        invariant
            i <= files.len(),
            sources@.len() == 3 + i,
            sources@[0] == RuleSource::Plain(BASE_RULES),
            sources@[1] == RuleSource::Plain(MARKER_RULES),
            sources@[2] == RuleSource::Plain(REPORTING_RULES),
            forall|k: int|
                0 <= k < i ==> ((#[trigger] sources@[3 + k]) matches RuleSource::File(path) && path@
                    == files@[k]@),
        decreases files.len() - i,
    {
        sources.push(RuleSource::File(files[i].clone()));
        i = i + 1;
    }
    let ghost listed = sources_view(sources@);
    let ghost wanted = all_rules(files@);
    assert forall|j: int| 0 <= j < listed.len() implies listed[j] == wanted[j] by {
        if j >= 3 {
            assert(sources@[3 + (j - 3)]@ == RuleSourceView::File(files@[j - 3]@));
        }
    }
    assert(listed =~= wanted);
    sources
}

/// What has to be done next to set the engine up.
#[derive(Debug)]
pub enum Loading<'a> {
    /// Load these rules and record whether the engine took them.
    Load(&'a RuleSource),
    /// The engine has all its rules.
    Ready,
    /// The engine could not take some rules; it is not set up.
    GiveUp,
}

/// The view of a [`Loading`].
pub enum LoadingView {
    Load(RuleSourceView),
    Ready,
    GiveUp,
}

impl<'a> View for Loading<'a> {
    type V = LoadingView;

    open spec fn view(&self) -> LoadingView {
        match self {
            Loading::Load(source) => LoadingView::Load(source@),
            Loading::Ready => LoadingView::Ready,
            Loading::GiveUp => LoadingView::GiveUp,
        }
    }
}

/// The engine on its way to its rules.
#[derive(Debug)]
pub struct Setup {
    sources: Vec<RuleSource>,
    loaded: usize,
    failed: bool,
}

/// The view of a [`Setup`].
pub struct SetupView {
    pub sources: Seq<RuleSourceView>,
    pub loaded: int,
    pub failed: bool,
}

impl View for Setup {
    type V = SetupView;

    closed spec fn view(&self) -> SetupView {
        SetupView {
            sources: sources_view(self.sources@),
            loaded: self.loaded as int,
            failed: self.failed,
        }
    }
}

impl SetupView {
    /// What has to be done next.
    pub open spec fn next(self) -> LoadingView {
        if self.failed {
            LoadingView::GiveUp
        } else if self.loaded < self.sources.len() {
            LoadingView::Load(self.sources[self.loaded])
        } else {
            LoadingView::Ready
        }
    }

    /// What a load that the engine took or not leads to. Where there is nothing to load, it
    /// leads to nothing.
    pub open spec fn record(self, took: bool) -> SetupView {
        if !(self.next() is Load) {
            self
        } else if took {
            SetupView { loaded: self.loaded + 1, ..self }
        } else {
            SetupView { failed: true, ..self }
        }
    }
}

/// How a set-up with the given rule files begins.
pub open spec fn fresh_setup(files: Seq<String>) -> SetupView {
    SetupView { sources: all_rules(files), loaded: 0, failed: false }
}

impl Setup {
    /// No more rules are loaded than there are.
    #[verifier::type_invariant]
    spec fn loaded_in_range(self) -> bool {
        self.loaded <= self.sources.len()
    }

    /// Begins the set-up with the given rule files.
    pub fn new(files: Vec<String>) -> (setup: Setup)
        ensures
            setup@ == fresh_setup(files@),
    {
        Setup { sources: rule_sources(files), loaded: 0, failed: false }
    }

    /// Says what has to be done next.
    pub fn next(&self) -> (loading: Loading<'_>)
        ensures
            loading@ == self@.next(),
    {
        if self.failed {
            Loading::GiveUp
        } else if self.loaded < self.sources.len() {
            Loading::Load(&self.sources[self.loaded])
        } else {
            Loading::Ready
        }
    }

    /// Records whether the engine took the rules that had to be loaded.
    pub fn record(self, took: bool) -> (setup: Setup)
        ensures
            setup@ == self@.record(took),
    {
        proof {
            use_type_invariant(&self);
        }
        let Setup { sources, loaded, failed } = self;
        if failed || loaded >= sources.len() {
            Setup { sources, loaded, failed }
        } else if took {
            Setup { sources, loaded: loaded + 1, failed }
        } else {
            Setup { sources, loaded, failed: true }
        }
    }
}

/// A set-up after the given outcomes of its loads.
pub open spec fn setup_after(files: Seq<String>, outcomes: Seq<bool>) -> SetupView
    decreases outcomes.len(),
{
    if outcomes.len() == 0 {
        fresh_setup(files)
    } else {
        setup_after(files, outcomes.drop_last()).record(outcomes.last())
    }
}

/// Whether one of the loads failed. An outcome after the last load is none of a load.
pub open spec fn some_load_failed(files: Seq<String>, outcomes: Seq<bool>) -> bool {
    exists|k: int| 0 <= k < outcomes.len() && k < 3 + files.len() && !#[trigger] outcomes[k]
}

/// The engine loads its rules one after the other, the built-in ones first and then the files
/// in the order given; it is set up exactly when it took all of them, and the first load that
/// fails ends the set-up.
pub proof fn law_rules_load_in_order_or_not_at_all(files: Seq<String>, outcomes: Seq<bool>)
    ensures
        setup_after(files, outcomes).next() == (if some_load_failed(files, outcomes) {
            LoadingView::GiveUp
        } else if outcomes.len() < all_rules(files).len() {
            LoadingView::Load(all_rules(files)[outcomes.len() as int])
        } else {
            LoadingView::Ready
        }),
{
    lemma_setup_after(files, outcomes);
}

/// The engine has three rule texts of its own, the base configuration, the marker rules and the
/// reporting rules, and after them the rules of every file that was given, in the order given.
pub proof fn law_no_rule_file_is_left_out(files: Seq<String>)
    ensures
        all_rules(files).len() == 3 + files.len(),
        all_rules(files)[0] == RuleSourceView::Plain(BASE_RULES@),
        all_rules(files)[1] == RuleSourceView::Plain(MARKER_RULES@),
        all_rules(files)[2] == RuleSourceView::Plain(REPORTING_RULES@),
        forall|k: int|
            0 <= k < files.len() ==> #[trigger] all_rules(files)[3 + k] == RuleSourceView::File(
                files[k]@,
            ),
{
}

/// What the engine is given before any file, word for word: it only detects, at the highest
/// paranoia level and with the limits of the regression tests; it inspects plain text; a request
/// with the `X-CRS-Test` header leaves a marker in the log and meets no other rule; and the
/// anomaly scores are reported for every exchange.
pub proof fn law_own_rules_word_for_word(files: Seq<String>)
    ensures
        all_rules(files)[0] == RuleSourceView::Plain(
            r#"SecAction "id:900005,\
      phase:1,\
      nolog,\
      pass,\
      ctl:ruleEngine=DetectionOnly,\
      ctl:ruleRemoveById=910000,\
      setvar:tx.blocking_paranoia_level=4,\
      setvar:tx.crs_validate_utf8_encoding=1,\
      setvar:tx.arg_name_length=100,\
      setvar:tx.arg_length=400,\
      setvar:tx.total_arg_length=64000,\
      setvar:tx.max_num_args=255,\
      setvar:tx.max_file_size=64100,\
      setvar:tx.combined_file_sizes=65535"#@,
        ),
        all_rules(files)[1] == RuleSourceView::Plain(
            r#"
           SecResponseBodyMimeType text/plain
           SecDefaultAction "phase:3,log,auditlog,pass"
           SecDefaultAction "phase:4,log,auditlog,pass"
           SecDefaultAction "phase:5,log,auditlog,pass"

           # Rule 900005 from https://github.com/coreruleset/coreruleset/blob/v4.0/dev/tests/regression/README.md#requirements
           SecAction "id:900005,\
             phase:1,\
             nolog,\
             pass,\
             ctl:ruleEngine=DetectionOnly,\
             ctl:ruleRemoveById=910000,\
             setvar:tx.blocking_paranoia_level=4,\
             setvar:tx.crs_validate_utf8_encoding=1,\
             setvar:tx.arg_name_length=100,\
             setvar:tx.arg_length=400,\
             setvar:tx.total_arg_length=64000,\
             setvar:tx.max_num_args=255,\
             setvar:tx.max_file_size=64100,\
             setvar:tx.combined_file_sizes=65535"

           # Write the value from the X-CRS-Test header as a marker to the log
           # Requests with X-CRS-Test header will not be matched by any rule. See https://github.com/coreruleset/go-ftw/pull/133
           SecRule REQUEST_HEADERS:X-CRS-Test "@rx ^.*$" \
             "id:999999,\
             phase:1,\
             pass,\
             t:none,\
             log,\
             auditlog,\
             msg:'X-CRS-Test %{MATCHED_VAR}',\
             ctl:ruleRemoveById=1-999999"
           "#@,
        ),
        all_rules(files)[2] == RuleSourceView::Plain(
            r#"# Force Reporting Level to 5 (Unconditional)
    SecAction \
        "id:999998,\
        phase:1,\
        pass,\
        nolog,\
        setvar:tx.reporting_level=5"

        # Inbound and outbound - all requests
        SecAction \
            "id:999996,\
            phase:5,\
            pass,\
            t:none,\
            noauditlog,\
            severity:'CRITICAL',\
            msg:'Anomaly Scores: \
        (Inbound Scores: blocking=%{tx.blocking_inbound_anomaly_score}, detection=%{tx.detection_inbound_anomaly_score}, per_pl=%{tx.inbound_anomaly_score_pl1}-%{tx.inbound_anomaly_score_pl2}-%{tx.inbound_anomaly_score_pl3}-%{tx.inbound_anomaly_score_pl4}, threshold=%{tx.inbound_anomaly_score_threshold}) - \
        (Outbound Scores: blocking=%{tx.blocking_outbound_anomaly_score}, detection=%{tx.detection_outbound_anomaly_score}, per_pl=%{tx.outbound_anomaly_score_pl1}-%{tx.outbound_anomaly_score_pl2}-%{tx.outbound_anomaly_score_pl3}-%{tx.outbound_anomaly_score_pl4}, threshold=%{tx.outbound_anomaly_score_threshold}) - \
        (SQLI=%{tx.sql_injection_score}, XSS=%{tx.xss_score}, RFI=%{tx.rfi_score}, LFI=%{tx.lfi_score}, RCE=%{tx.rce_score}, PHPI=%{tx.php_injection_score}, HTTP=%{tx.http_violation_score}, SESS=%{tx.session_fixation_score}, COMBINED_SCORE=%{tx.anomaly_score})',\
            tag:'reporting',\
            tag:'OWASP_CRS',\
            ver:'OWASP_CRS/4.21.0'"
        "#@,
        ),
{
}

/// The engine is set up exactly when it took its own three texts and every file; it is given up
/// exactly when one of these loads failed; and as long as neither holds, the next load is that of
/// its own text or of the file whose turn it is.
pub proof fn law_every_rule_file_is_loaded(files: Seq<String>, outcomes: Seq<bool>)
    ensures
        setup_after(files, outcomes).next() is Ready <==> {
            &&& outcomes.len() >= 3 + files.len()
            &&& forall|k: int| 0 <= k < 3 + files.len() ==> #[trigger] outcomes[k]
        },
        setup_after(files, outcomes).next() is GiveUp <==> exists|k: int|
            0 <= k < outcomes.len() && k < 3 + files.len() && !#[trigger] outcomes[k],
        setup_after(files, outcomes).next() matches LoadingView::Load(source) ==> {
            let n = outcomes.len() as int;
            &&& n < 3 + files.len()
            &&& source == if n == 0 {
                RuleSourceView::Plain(BASE_RULES@)
            } else if n == 1 {
                RuleSourceView::Plain(MARKER_RULES@)
            } else if n == 2 {
                RuleSourceView::Plain(REPORTING_RULES@)
            } else {
                RuleSourceView::File(files[n - 3]@)
            }
        },
{
    lemma_setup_after(files, outcomes);
    law_no_rule_file_is_left_out(files);
}

/// The view of a rule source tells texts from files and shows the text or the path, and that of a
/// step of the set-up tells the steps apart and shows the source.
pub proof fn law_loading_is_seen_whole(source: RuleSource, loading: Loading<'_>)
    ensures
        source matches RuleSource::Plain(text) ==> source@ == RuleSourceView::Plain(text@),
        source matches RuleSource::File(path) ==> source@ == RuleSourceView::File(path@),
        loading is Ready <==> loading@ is Ready,
        loading is GiveUp <==> loading@ is GiveUp,
        loading matches Loading::Load(s) ==> loading@ == LoadingView::Load(s@),
{
}

/// Where a set-up stands after the given outcomes of its loads.
proof fn lemma_setup_after(files: Seq<String>, outcomes: Seq<bool>)
    ensures
        ({
            let setup = setup_after(files, outcomes);
            let count = 3 + files.len();
            &&& setup.sources == all_rules(files)
            &&& setup.failed == some_load_failed(files, outcomes)
            &&& !setup.failed ==> setup.loaded == if outcomes.len() < count {
                outcomes.len() as int
            } else {
                count as int
            }
        }),
    decreases outcomes.len(),
{
    if outcomes.len() > 0 {
        let before = outcomes.drop_last();
        lemma_setup_after(files, before);
        if some_load_failed(files, before) {
            let k = choose|k: int|
                0 <= k < before.len() && k < 3 + files.len() && !#[trigger] before[k];
            assert(!outcomes[k]);
        }
        if some_load_failed(files, outcomes) {
            let k = choose|k: int|
                0 <= k < outcomes.len() && k < 3 + files.len() && !#[trigger] outcomes[k];
            assert(k < before.len() ==> !before[k]);
        }
        assert(outcomes[outcomes.len() - 1] == outcomes.last());
    }
}

} // verus!
