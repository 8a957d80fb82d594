//! The signature matcher: a pre-loaded, read-only database of regular
//! expression rules, matched strictly first-rule-wins in database order.
//!
//! Regular expression compilation and matching are done by the `regex`
//! crate behind the trusted items below; everything around them — which
//! rules survive loading, which rule a text matches, what the match carries
//! — is verified. A rule whose expression fails to compile is dropped from
//! the active set at load time, never consulted, and never aborts the load.

use vstd::prelude::*;

verus! {

#[verifier::external_type_specification]
#[verifier::external_body]
pub struct ExRegex(regex::Regex);

/// Whether `Regex::new` accepts `pattern`: compilation success depends on
/// the pattern text alone.
pub uninterp spec fn regex_compiles(pattern: Seq<char>) -> bool;

/// The pattern text a compiled `regex::Regex` was built from, as
/// `Regex::as_str` reports it.
pub uninterp spec fn regex_source(re: regex::Regex) -> Seq<char>;

/// Whether the regular expression `pattern` matches anywhere in `text`:
/// what `Regex::is_match` returns, a function of the two texts alone.
pub uninterp spec fn regex_accepts(pattern: Seq<char>, text: Seq<char>) -> bool;

/// The text of capture group `group` in the first match of `pattern` in
/// `text`, if the pattern matches and the group participates: what
/// `Regex::captures` followed by `Captures::get` yields.
pub uninterp spec fn regex_group(pattern: Seq<char>, text: Seq<char>, group: int) -> Option<
    Seq<char>,
>;

/// Relies on `regex::Regex::new`: it returns `Ok` exactly when the pattern
/// is a valid expression within the default size limit, and the compiled
/// value remembers its pattern text.
#[verifier::external_body]
fn regex_new(pattern: &str) -> (r: Option<regex::Regex>)
    ensures
        r is Some <==> regex_compiles(pattern@),
        match r {
            Some(re) => regex_source(re) == pattern@,
            None => true,
        },
{
    regex::Regex::new(pattern).ok()
}

/// Relies on `regex::Regex::is_match`: true iff the expression matches
/// anywhere in the haystack. Every expression this crate holds was built by
/// `regex_new` with the default configuration, so its behaviour is a
/// function of the pattern text and the haystack alone.
#[verifier::external_body]
fn regex_is_match(re: &regex::Regex, text: &str) -> (b: bool)
    ensures
        b == regex_accepts(regex_source(*re), text@),
{
    re.is_match(text)
}

/// Relies on `regex::Regex::captures` and `regex::Captures::get`: captures
/// are present exactly when the expression matches, and for an expression
/// built by `regex_new` the group's text is a function of the pattern text,
/// the haystack and the group index alone; a group that did not
/// participate, or lies beyond the pattern's groups, yields nothing.
#[verifier::external_body]
fn regex_captures_group(re: &regex::Regex, text: &str, group: usize) -> (r: Option<Option<String>>)
    ensures
        r is Some <==> regex_accepts(regex_source(*re), text@),
        match r {
            Some(v) => v.deep_view() == regex_group(regex_source(*re), text@, group as int),
            None => true,
        },
{
    re.captures(text).map(|c| c.get(group).map(|m| m.as_str().to_string()))
}

/// One banner-matching rule of the database.
#[derive(Debug)]
pub struct BannerPattern {
    pub pattern: String,
    pub service: String,
    pub product: String,
    pub confidence: u8,
}

/// Mathematical model of a `BannerPattern`.
pub struct BannerPatternV {
    pub pattern: Seq<char>,
    pub service: Seq<char>,
    pub product: Seq<char>,
    pub confidence: u8,
}

impl View for BannerPattern {
    type V = BannerPatternV;

    open spec fn view(&self) -> BannerPatternV {
        BannerPatternV {
            pattern: self.pattern@,
            service: self.service@,
            product: self.product@,
            confidence: self.confidence,
        }
    }
}

impl DeepView for BannerPattern {
    type V = BannerPatternV;

    open spec fn deep_view(&self) -> BannerPatternV {
        self@
    }
}

impl Clone for BannerPattern {
    fn clone(&self) -> (r: Self)
        ensures
            r@ == self@,
    {
        BannerPattern {
            pattern: self.pattern.clone(),
            service: self.service.clone(),
            product: self.product.clone(),
            confidence: self.confidence,
        }
    }
}

/// One HTTP `Server`-header rule of the database; `version_group` names the
/// capture group holding the version string, if the rule declares one.
#[derive(Debug)]
pub struct HttpServerPattern {
    pub pattern: String,
    pub service: String,
    pub product: String,
    pub confidence: u8,
    pub version_group: Option<usize>,
}

/// Mathematical model of an `HttpServerPattern`.
pub struct HttpServerPatternV {
    pub pattern: Seq<char>,
    pub service: Seq<char>,
    pub product: Seq<char>,
    pub confidence: u8,
    pub version_group: Option<usize>,
}

impl View for HttpServerPattern {
    type V = HttpServerPatternV;

    open spec fn view(&self) -> HttpServerPatternV {
        HttpServerPatternV {
            pattern: self.pattern@,
            service: self.service@,
            product: self.product@,
            confidence: self.confidence,
            version_group: self.version_group,
        }
    }
}

impl DeepView for HttpServerPattern {
    type V = HttpServerPatternV;

    open spec fn deep_view(&self) -> HttpServerPatternV {
        self@
    }
}

impl Clone for HttpServerPattern {
    fn clone(&self) -> (r: Self)
        ensures
            r@ == self@,
    {
        HttpServerPattern {
            pattern: self.pattern.clone(),
            service: self.service.clone(),
            product: self.product.clone(),
            confidence: self.confidence,
            version_group: match self.version_group {
                Some(g) => Some(g),
                None => None,
            },
        }
    }
}

/// The loaded signature database: banner rules, HTTP `Server`-header rules,
/// and a port-to-service-name hint table (first entry for a port wins).
#[derive(Debug)]
pub struct SignatureDatabase {
    pub banner_patterns: Vec<BannerPattern>,
    pub http_server_patterns: Vec<HttpServerPattern>,
    pub port_hints: Vec<(u16, String)>,
}

/// Mathematical model of a `SignatureDatabase`.
pub struct SignatureDatabaseV {
    pub banner_patterns: Seq<BannerPatternV>,
    pub http_server_patterns: Seq<HttpServerPatternV>,
    pub port_hints: Seq<(u16, Seq<char>)>,
}

impl SignatureDatabaseV {
    /// Every confidence score in the database is a percentage.
    pub open spec fn wf(self) -> bool {
        &&& forall|i: int|
            0 <= i < self.banner_patterns.len() ==> #[trigger] self.banner_patterns[i].confidence
                <= 100
        &&& forall|i: int|
            0 <= i < self.http_server_patterns.len()
                ==> #[trigger] self.http_server_patterns[i].confidence <= 100
    }
}

impl View for SignatureDatabase {
    type V = SignatureDatabaseV;

    open spec fn view(&self) -> SignatureDatabaseV {
        SignatureDatabaseV {
            banner_patterns: self.banner_patterns.deep_view(),
            http_server_patterns: self.http_server_patterns.deep_view(),
            port_hints: self.port_hints.deep_view(),
        }
    }
}

/// What the signature matcher reports for a matched rule.
#[derive(Debug)]
pub struct Match {
    pub service: String,
    pub product: String,
    pub version: Option<String>,
    pub confidence: u8,
}

/// Mathematical model of a `Match`.
pub struct MatchV {
    pub service: Seq<char>,
    pub product: Seq<char>,
    pub version: Option<Seq<char>>,
    pub confidence: u8,
}

impl View for Match {
    type V = MatchV;

    open spec fn view(&self) -> MatchV {
        MatchV {
            service: self.service@,
            product: self.product@,
            version: self.version.deep_view(),
            confidence: self.confidence,
        }
    }
}

impl Clone for Match {
    fn clone(&self) -> (r: Self)
        ensures
            r@ == self@,
    {
        Match {
            service: self.service.clone(),
            product: self.product.clone(),
            version: crate::service_info::clone_opt_string(&self.version),
            confidence: self.confidence,
        }
    }
}

/// The banner rules whose expressions compile, in database order.
pub open spec fn kept_banner(pats: Seq<BannerPatternV>) -> Seq<BannerPatternV>
    decreases pats.len(),
{
    if pats.len() == 0 {
        Seq::empty()
    } else {
        let rest = kept_banner(pats.drop_last());
        if regex_compiles(pats.last().pattern) {
            rest.push(pats.last())
        } else {
            rest
        }
    }
}

/// The HTTP rules whose expressions compile, in database order.
pub open spec fn kept_http(pats: Seq<HttpServerPatternV>) -> Seq<HttpServerPatternV>
    decreases pats.len(),
{
    if pats.len() == 0 {
        Seq::empty()
    } else {
        let rest = kept_http(pats.drop_last());
        if regex_compiles(pats.last().pattern) {
            rest.push(pats.last())
        } else {
            rest
        }
    }
}

/// The first rule in order whose expression matches `text`, carried over
/// into a match with no version: banner rules extract no capture group.
pub open spec fn spec_match_banner(rules: Seq<BannerPatternV>, text: Seq<char>) -> Option<MatchV>
    decreases rules.len(),
{
    if rules.len() == 0 {
        None
    } else if regex_accepts(rules[0].pattern, text) {
        Some(
            MatchV {
                service: rules[0].service,
                product: rules[0].product,
                version: None,
                confidence: rules[0].confidence,
            },
        )
    } else {
        spec_match_banner(rules.skip(1), text)
    }
}

/// The first HTTP rule in order whose expression matches `text`; the
/// version is the rule's declared capture group, if any.
pub open spec fn spec_match_http(rules: Seq<HttpServerPatternV>, text: Seq<char>) -> Option<MatchV>
    decreases rules.len(),
{
    if rules.len() == 0 {
        None
    } else if regex_accepts(rules[0].pattern, text) {
        Some(
            MatchV {
                service: rules[0].service,
                product: rules[0].product,
                version: match rules[0].version_group {
                    Some(g) => regex_group(rules[0].pattern, text, g as int),
                    None => None,
                },
                confidence: rules[0].confidence,
            },
        )
    } else {
        spec_match_http(rules.skip(1), text)
    }
}

/// The service name hinted for `port`, from the first table entry carrying
/// that port.
pub open spec fn spec_hint(hints: Seq<(u16, Seq<char>)>, port: u16) -> Option<Seq<char>>
    decreases hints.len(),
{
    if hints.len() == 0 {
        None
    } else if hints[0].0 == port {
        Some(hints[0].1)
    } else {
        spec_hint(hints.skip(1), port)
    }
}

/// The signature matcher: the database plus its pre-compiled expressions.
pub struct SignatureMatcher {
    database: SignatureDatabase,
    banner_regexes: Vec<(regex::Regex, BannerPattern)>,
    http_regexes: Vec<(regex::Regex, HttpServerPattern)>,
}

impl SignatureMatcher {
    /// The active banner rules, in priority order.
    pub closed spec fn banner_rules(&self) -> Seq<BannerPatternV> {
        Seq::new(self.banner_regexes@.len(), |i: int| self.banner_regexes@[i].1@)
    }

    /// The active HTTP rules, in priority order.
    pub closed spec fn http_rules(&self) -> Seq<HttpServerPatternV> {
        Seq::new(self.http_regexes@.len(), |i: int| self.http_regexes@[i].1@)
    }

    /// The port-hint table.
    pub closed spec fn hints(&self) -> Seq<(u16, Seq<char>)> {
        self.database.port_hints.deep_view()
    }

    /// Every stored expression was compiled from the pattern stored beside
    /// it, and every confidence is a percentage.
    pub closed spec fn wf(&self) -> bool {
        &&& forall|i: int|
            0 <= i < self.banner_regexes@.len() ==> regex_source(
                #[trigger] self.banner_regexes@[i].0,
            ) == self.banner_regexes@[i].1.pattern@ && regex_compiles(
                self.banner_regexes@[i].1.pattern@,
            ) && self.banner_regexes@[i].1.confidence <= 100
        &&& forall|i: int|
            0 <= i < self.http_regexes@.len() ==> regex_source(#[trigger] self.http_regexes@[i].0)
                == self.http_regexes@[i].1.pattern@ && regex_compiles(
                self.http_regexes@[i].1.pattern@,
            ) && self.http_regexes@[i].1.confidence <= 100
    }

    /// Builds a matcher from a database, compiling every expression once;
    /// rules that fail to compile are dropped, everything else is kept in
    /// database order. The result depends on the database alone.
    pub fn from_database(database: SignatureDatabase) -> (r: SignatureMatcher)
        requires
            database@.wf(),
        ensures
            r.wf(),
            r.banner_rules() == kept_banner(database@.banner_patterns),
            r.http_rules() == kept_http(database@.http_server_patterns),
            r.hints() == database@.port_hints,
    {
        let ghost pats = database@.banner_patterns;
        let mut banner_regexes: Vec<(regex::Regex, BannerPattern)> = Vec::new();
        let mut i: usize = 0;
        while i < database.banner_patterns.len()
            invariant
                database@.wf(),
                i <= database.banner_patterns.len(),
                pats == database@.banner_patterns,
                Seq::new(banner_regexes@.len(), |k: int| banner_regexes@[k].1@) == kept_banner(
                    pats.take(i as int),
                ),
                forall|k: int|
                    0 <= k < banner_regexes@.len() ==> regex_source(
                        #[trigger] banner_regexes@[k].0,
                    ) == banner_regexes@[k].1.pattern@ && regex_compiles(
                        banner_regexes@[k].1.pattern@,
                    ) && banner_regexes@[k].1.confidence <= 100,
            decreases database.banner_patterns.len() - i,
        {
            let p = &database.banner_patterns[i];
            proof {
                assert(pats.take(i + 1).drop_last() =~= pats.take(i as int));
                assert(pats.take(i + 1).last() == pats[i as int]);
                assert(pats[i as int].confidence <= 100);
            }
            let ghost before = Seq::new(banner_regexes@.len(), |k: int| banner_regexes@[k].1@);
            let ghost vbefore = banner_regexes@;
            match regex_new(p.pattern.as_str()) {
                Some(re) => {
                    banner_regexes.push((re, p.clone()));
                    proof {
                        assert(Seq::new(banner_regexes@.len(), |k: int| banner_regexes@[k].1@)
                            =~= before.push(pats[i as int]));
                        assert forall|k: int| 0 <= k < banner_regexes@.len() implies regex_source(
                            #[trigger] banner_regexes@[k].0,
                        ) == banner_regexes@[k].1.pattern@ && regex_compiles(
                            banner_regexes@[k].1.pattern@,
                        ) && banner_regexes@[k].1.confidence <= 100 by {
                            if k < vbefore.len() {
                                assert(banner_regexes@[k] == vbefore[k]);
                                assert(regex_source(vbefore[k].0) == vbefore[k].1.pattern@);
                            }
                        }
                    }
                },
                None => {
                    proof {
                        assert(forall|k: int|
                            0 <= k < banner_regexes@.len() ==> regex_source(
                                #[trigger] banner_regexes@[k].0,
                            ) == banner_regexes@[k].1.pattern@ && regex_compiles(
                                banner_regexes@[k].1.pattern@,
                            ) && banner_regexes@[k].1.confidence <= 100);
                    }
                },
            }
            proof {
                assert(forall|k: int|
                    0 <= k < banner_regexes@.len() ==> regex_source(
                        #[trigger] banner_regexes@[k].0,
                    ) == banner_regexes@[k].1.pattern@ && regex_compiles(
                        banner_regexes@[k].1.pattern@,
                    ) && banner_regexes@[k].1.confidence <= 100);
            }
            i += 1;
        }
        proof {
            assert(pats.take(pats.len() as int) =~= pats);
        }
        let ghost hpats = database@.http_server_patterns;
        let mut http_regexes: Vec<(regex::Regex, HttpServerPattern)> = Vec::new();
        let mut j: usize = 0;
        while j < database.http_server_patterns.len()
            invariant
                database@.wf(),
                j <= database.http_server_patterns.len(),
                hpats == database@.http_server_patterns,
                Seq::new(http_regexes@.len(), |k: int| http_regexes@[k].1@) == kept_http(
                    hpats.take(j as int),
                ),
                forall|k: int|
                    0 <= k < http_regexes@.len() ==> regex_source(#[trigger] http_regexes@[k].0)
                        == http_regexes@[k].1.pattern@ && regex_compiles(
                        http_regexes@[k].1.pattern@,
                    ) && http_regexes@[k].1.confidence <= 100,
            decreases database.http_server_patterns.len() - j,
        {
            let p = &database.http_server_patterns[j];
            proof {
                assert(hpats.take(j + 1).drop_last() =~= hpats.take(j as int));
                assert(hpats.take(j + 1).last() == hpats[j as int]);
                assert(hpats[j as int].confidence <= 100);
            }
            let ghost before = Seq::new(http_regexes@.len(), |k: int| http_regexes@[k].1@);
            let ghost vbefore = http_regexes@;
            match regex_new(p.pattern.as_str()) {
                Some(re) => {
                    http_regexes.push((re, p.clone()));
                    proof {
                        assert(Seq::new(http_regexes@.len(), |k: int| http_regexes@[k].1@)
                            =~= before.push(hpats[j as int]));
                        assert forall|k: int| 0 <= k < http_regexes@.len() implies regex_source(
                            #[trigger] http_regexes@[k].0,
                        ) == http_regexes@[k].1.pattern@ && regex_compiles(
                            http_regexes@[k].1.pattern@,
                        ) && http_regexes@[k].1.confidence <= 100 by {
                            if k < vbefore.len() {
                                assert(http_regexes@[k] == vbefore[k]);
                                assert(regex_source(vbefore[k].0) == vbefore[k].1.pattern@);
                            }
                        }
                    }
                },
                None => {
                    proof {
                        assert(forall|k: int|
                            0 <= k < http_regexes@.len() ==> regex_source(
                                #[trigger] http_regexes@[k].0,
                            ) == http_regexes@[k].1.pattern@ && regex_compiles(
                                http_regexes@[k].1.pattern@,
                            ) && http_regexes@[k].1.confidence <= 100);
                    }
                },
            }
            proof {
                assert(forall|k: int|
                    0 <= k < http_regexes@.len() ==> regex_source(
                        #[trigger] http_regexes@[k].0,
                    ) == http_regexes@[k].1.pattern@ && regex_compiles(
                        http_regexes@[k].1.pattern@,
                    ) && http_regexes@[k].1.confidence <= 100);
            }
            j += 1;
        }
        proof {
            assert(hpats.take(hpats.len() as int) =~= hpats);
        }
        SignatureMatcher { database, banner_regexes, http_regexes }
    }

    /// Matches a raw banner against the banner rules, first match wins.
    pub fn match_banner(&self, banner: &str) -> (r: Option<Match>)
        requires
            self.wf(),
        ensures
            match r {
                Some(m) => spec_match_banner(self.banner_rules(), banner@) == Some(m@)
                    && m@.confidence <= 100,
                None => spec_match_banner(self.banner_rules(), banner@) is None,
            },
    {
        let ghost rules = self.banner_rules();
        proof {
            assert(rules.skip(0) =~= rules);
        }
        let mut i: usize = 0;
        while i < self.banner_regexes.len()
            invariant
                self.wf(),
                i <= self.banner_regexes@.len(),
                rules == self.banner_rules(),
                spec_match_banner(rules, banner@) == spec_match_banner(
                    rules.skip(i as int),
                    banner@,
                ),
            decreases self.banner_regexes.len() - i,
        {
            let pair = &self.banner_regexes[i];
            proof {
                assert(rules.skip(i as int)[0] == rules[i as int]);
                assert(rules.skip(i as int).skip(1) =~= rules.skip(i + 1));
            }
            if regex_is_match(&pair.0, banner) {
                return Some(
                    Match {
                        service: pair.1.service.clone(),
                        product: pair.1.product.clone(),
                        version: None,
                        confidence: pair.1.confidence,
                    },
                );
            }
            i += 1;
        }
        None
    }

    /// Matches an HTTP `Server` header value against the HTTP rules, first
    /// match wins; the version comes from the rule's capture group, if any.
    pub fn match_http_server(&self, server_header: &str) -> (r: Option<Match>)
        requires
            self.wf(),
        ensures
            match r {
                Some(m) => spec_match_http(self.http_rules(), server_header@) == Some(m@)
                    && m@.confidence <= 100,
                None => spec_match_http(self.http_rules(), server_header@) is None,
            },
    {
        let ghost rules = self.http_rules();
        proof {
            assert(rules.skip(0) =~= rules);
        }
        let mut i: usize = 0;
        while i < self.http_regexes.len()
            invariant
                self.wf(),
                i <= self.http_regexes@.len(),
                rules == self.http_rules(),
                spec_match_http(rules, server_header@) == spec_match_http(
                    rules.skip(i as int),
                    server_header@,
                ),
            decreases self.http_regexes.len() - i,
        {
            let pair = &self.http_regexes[i];
            proof {
                assert(rules.skip(i as int)[0] == rules[i as int]);
                assert(rules.skip(i as int).skip(1) =~= rules.skip(i + 1));
            }
            let matched: Option<Option<String>> = match pair.1.version_group {
                Some(g) => regex_captures_group(&pair.0, server_header, g),
                None => {
                    if regex_is_match(&pair.0, server_header) {
                        Some(None)
                    } else {
                        None
                    }
                },
            };
            match matched {
                Some(version) => {
                    return Some(
                        Match {
                            service: pair.1.service.clone(),
                            product: pair.1.product.clone(),
                            version,
                            confidence: pair.1.confidence,
                        },
                    );
                },
                None => {},
            }
            i += 1;
        }
        None
    }

    /// Looks up the port-hint table.
    pub fn get_port_hint(&self, port: u16) -> (r: Option<String>)
        ensures
            r.deep_view() == spec_hint(self.hints(), port),
    {
        let ghost hints = self.hints();
        proof {
            assert(hints.skip(0) =~= hints);
        }
        let mut i: usize = 0;
        while i < self.database.port_hints.len()
            invariant
                i <= self.database.port_hints.len(),
                hints == self.hints(),
                spec_hint(hints, port) == spec_hint(hints.skip(i as int), port),
            decreases self.database.port_hints.len() - i,
        {
            proof {
                assert(hints.skip(i as int)[0] == hints[i as int]);
                assert(hints.skip(i as int).skip(1) =~= hints.skip(i + 1));
            }
            let entry = &self.database.port_hints[i];
            if entry.0 == port {
                return Some(entry.1.clone());
            }
            i += 1;
        }
        None
    }
}

/// Priority: when rule `i` is the first rule whose expression matches the
/// text, the match carries exactly rule `i`'s service, product and
/// confidence — an earlier rule always shadows a later one, even when both
/// match.
pub proof fn lemma_priority_order(rules: Seq<BannerPatternV>, text: Seq<char>, i: int)
    requires
        0 <= i < rules.len(),
        regex_accepts(rules[i].pattern, text),
        forall|j: int| 0 <= j < i ==> !regex_accepts(#[trigger] rules[j].pattern, text),
    ensures
        spec_match_banner(rules, text) == Some(
            MatchV {
                service: rules[i].service,
                product: rules[i].product,
                version: None,
                confidence: rules[i].confidence,
            },
        ),
    decreases i,
{
    if i == 0 {
    } else {
        assert(!regex_accepts(rules[0].pattern, text));
        assert(forall|j: int|
            0 <= j < i - 1 ==> rules.skip(1)[j] == rules[j + 1]);
        lemma_priority_order(rules.skip(1), text, i - 1);
    }
}

/// Reloading the same database twice yields the same active rule list and
/// therefore identical match results for identical inputs: the matcher
/// holds no state beyond the database it was built from.
pub proof fn lemma_reload_idempotent(
    db1: SignatureDatabaseV,
    db2: SignatureDatabaseV,
    banner: Seq<char>,
    server_header: Seq<char>,
)
    requires
        db1 == db2,
    ensures
        kept_banner(db1.banner_patterns) == kept_banner(db2.banner_patterns),
        kept_http(db1.http_server_patterns) == kept_http(db2.http_server_patterns),
        spec_match_banner(kept_banner(db1.banner_patterns), banner) == spec_match_banner(
            kept_banner(db2.banner_patterns),
            banner,
        ),
        spec_match_http(kept_http(db1.http_server_patterns), server_header) == spec_match_http(
            kept_http(db2.http_server_patterns),
            server_header,
        ),
{
}

/// A banner match never reports less confidence than the least confident
/// rule of the list.
pub proof fn lemma_banner_match_confidence(rules: Seq<BannerPatternV>, text: Seq<char>, lo: u8)
    requires
        forall|i: int| 0 <= i < rules.len() ==> #[trigger] rules[i].confidence >= lo,
    ensures
        match spec_match_banner(rules, text) {
            Some(m) => m.confidence >= lo,
            None => true,
        },
    decreases rules.len(),
{
    if rules.len() == 0 {
    } else if regex_accepts(rules[0].pattern, text) {
    } else {
        assert(forall|j: int|
            0 <= j < rules.skip(1).len() ==> rules.skip(1)[j] == rules[j + 1]);
        lemma_banner_match_confidence(rules.skip(1), text, lo);
    }
}

/// An HTTP match never reports less confidence than the least confident
/// rule of the list.
pub proof fn lemma_http_match_confidence(rules: Seq<HttpServerPatternV>, text: Seq<char>, lo: u8)
    requires
        forall|i: int| 0 <= i < rules.len() ==> #[trigger] rules[i].confidence >= lo,
    ensures
        match spec_match_http(rules, text) {
            Some(m) => m.confidence >= lo,
            None => true,
        },
    decreases rules.len(),
{
    if rules.len() == 0 {
    } else if regex_accepts(rules[0].pattern, text) {
    } else {
        assert(forall|j: int|
            0 <= j < rules.skip(1).len() ==> rules.skip(1)[j] == rules[j + 1]);
        lemma_http_match_confidence(rules.skip(1), text, lo);
    }
}

} // verus!
