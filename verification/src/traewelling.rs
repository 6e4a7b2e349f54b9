//! The travel log of one user: which of its statuses are shown, and how its
//! requests are made.

use vstd::prelude::*;
use vstd::string::*;
use crate::config::Config;
use crate::data::{status_ids, Status, StatusView};
use crate::http::{
    authorized_get, header_value_accepts, is_header_text, CredentialError, RequestDescriptor,
};
use crate::polyline::{BatchFetcher, BatchView};
use crate::status::{
    category_allowed, category_denied, filter_status, lemma_category_rule, passes_filter,
    visibility_allowed, warning_for, FilterWarning,
};
use crate::text::{decimal_string, decimal_text, texts};

verus! {

/// What stands between the two places of a rule that names a pair of places.
pub const PAIR_SEPARATOR: &'static str = " <-> ";

/// A pair of places as a rule writes it.
pub open spec fn pair_text(from: Seq<char>, to: Seq<char>) -> Seq<char> {
    from + PAIR_SEPARATOR@ + to
}

/// Whether a rule of the ignore list is about a status: the rule is the id
/// of the status in decimal notation, or it names the two places of its
/// journey, in either order.
pub open spec fn rule_matches(rule: Seq<char>, status: StatusView) -> bool {
    ||| rule == decimal_text(status.id as nat)
    ||| rule == pair_text(status.origin, status.destination)
    ||| rule == pair_text(status.destination, status.origin)
}

/// Whether some rule of the list is about the status.
pub open spec fn on_ignore_list(rules: Seq<Seq<char>>, status: StatusView) -> bool {
    exists|i: int| 0 <= i < rules.len() && rule_matches(#[trigger] rules[i], status)
}

/// Whether a status is shown: it passes the rule on what it is, and no rule
/// of the ignore list is about it.
pub open spec fn keeps(rules: Seq<Seq<char>>, status: StatusView) -> bool {
    passes_filter(status) && !on_ignore_list(rules, status)
}

/// As a predicate on statuses: whether `keeps` holds of the status.
pub open spec fn kept_by(rules: Seq<Seq<char>>) -> spec_fn(Status) -> bool {
    |status: Status| keeps(rules, status@)
}

fn pair_string(from: &String, to: &String) -> (text: String)
    ensures
        text@ == pair_text(from@, to@),
{
    let mut text = from.clone();
    text.append(PAIR_SEPARATOR);
    text.append(to.as_str());
    text
}

/// Whether some rule of `rules` is about `status`.
pub fn is_ignored(rules: &Vec<String>, status: &Status) -> (ignored: bool)
    ensures
        ignored == on_ignore_list(texts(rules@), status@),
{
    let id = decimal_string(status.id);
    let forward = pair_string(&status.train.origin.name, &status.train.destination.name);
    let backward = pair_string(&status.train.destination.name, &status.train.origin.name);
    let mut i: usize = 0;
    while i < rules.len()
        invariant
            i <= rules.len(),
            id@ == decimal_text(status@.id as nat),
            forward@ == pair_text(status@.origin, status@.destination),
            backward@ == pair_text(status@.destination, status@.origin),
            forall|j: int| 0 <= j < i ==> !rule_matches(#[trigger] texts(rules@)[j], status@),
        decreases rules.len() - i,
    {
        let rule = &rules[i];
        assert(texts(rules@)[i as int] == rule@);
        if *rule == id || *rule == forward || *rule == backward {
            return true;
        }
        i = i + 1;
    }
    false
}

/// The travel log, as configured.
pub struct Traewelling {
    config: Config,
    credential: String,
}

impl Traewelling {
    /// The rules of the ignore list.
    pub closed spec fn ignore_rules(self) -> Seq<Seq<char>> {
        self.config.ignore_rules()
    }

    /// The credential that every request presents.
    pub closed spec fn credential(self) -> Seq<char> {
        self.credential@
    }

    /// The configuration.
    pub closed spec fn configured(self) -> Config {
        self.config
    }

    #[verifier::type_invariant]
    spec fn credential_can_be_sent(self) -> bool {
        is_header_text(self.credential@)
    }

    /// The travel log with this configuration, read with this credential, or
    /// an error where the credential cannot be sent.
    pub fn new(config: Config, credential: String) -> (log: Result<Traewelling, CredentialError>)
        ensures
            match log {
                Ok(log) => {
                    &&& is_header_text(credential@)
                    &&& log.configured() == config
                    &&& log.ignore_rules() == config.ignore_rules()
                    &&& log.credential() == credential@
                },
                Err(error) => !is_header_text(credential@) && error == CredentialError::NotSendable,
            },
    {
        if header_value_accepts(credential.as_str()) {
            Ok(Traewelling { config, credential })
        } else {
            Err(CredentialError::NotSendable)
        }
    }

    /// The configuration.
    pub fn config(&self) -> (config: &Config)
        ensures
            *config == self.configured(),
            config.ignore_rules() == self.ignore_rules(),
    {
        &self.config
    }

    /// The request that reads `url` from the travel log. It presents the
    /// credential, which can be sent.
    pub fn request(&self, url: String) -> (request: RequestDescriptor)
        ensures
            request@ == authorized_get(url@, self.credential()),
            is_header_text(self.credential()),
    {
        proof {
            use_type_invariant(self);
        }
        RequestDescriptor::authorized(url, self.credential.clone())
    }

    /// Whether the ignore list has a rule about `status`.
    pub fn is_on_ignore_list(&self, status: &Status) -> (ignored: bool)
        ensures
            ignored == on_ignore_list(self.ignore_rules(), status@),
    {
        is_ignored(&self.config.ignore, status)
    }

    /// Whether `status` is shown.
    pub fn keep(&self, status: &Status) -> (keep: bool)
        ensures
            keep == keeps(self.ignore_rules(), status@),
    {
        filter_status(status) && !self.is_on_ignore_list(status)
    }

    /// The statuses to show among those that the listing gave, in the order
    /// of the listing.
    pub fn get_statuses(&self, fetched: Vec<Status>) -> (shown: Vec<Status>)
        ensures
            shown@ == fetched@.filter(kept_by(self.ignore_rules())),
    {
        let ghost shows = kept_by(self.ignore_rules());
        let mut shown: Vec<Status> = Vec::new();
        for status in it: fetched
            invariant
                it.seq() == fetched@,
                shows == kept_by(self.ignore_rules()),
                shown@ == fetched@.take(it.index() as int).filter(shows),
        {
            proof {
                let before = fetched@.take(it.index() as int);
                let with = fetched@.take(it.index() + 1);
                assert(with =~= before.push(status));
                assert(shows(status) == keeps(self.ignore_rules(), status@));
                before.lemma_filter_push(status, shows);
            }
            if self.keep(&status) {
                shown.push(status);
            }
        }
        assert(fetched@.take(fetched@.len() as int) =~= fetched@);
        shown
    }

    /// The fetch of the polylines of `statuses`.
    pub fn get_polylines(&self, statuses: &Vec<Status>) -> (fetcher: BatchFetcher)
        ensures
            fetcher@ == BatchView::planned(status_ids(statuses@)),
    {
        BatchFetcher::new(statuses)
    }
}

/// A rule that names two places is about a journey whichever way it went:
/// a status is on the ignore list exactly if the status of the journey back
/// is, and is shown exactly if that one is.
pub proof fn lemma_ignore_list_is_symmetric(rules: Seq<Seq<char>>, status: StatusView)
    ensures
        on_ignore_list(rules, status) == on_ignore_list(rules, status.reversed()),
        keeps(rules, status) == keeps(rules, status.reversed()),
{
    assert forall|rule: Seq<char>| rule_matches(rule, status) == rule_matches(rule, status.reversed()) by {}
    if on_ignore_list(rules, status) {
        let i = choose|i: int| 0 <= i < rules.len() && rule_matches(#[trigger] rules[i], status);
        assert(rule_matches(rules[i], status.reversed()));
    }
    if on_ignore_list(rules, status.reversed()) {
        let i = choose|i: int| 0 <= i < rules.len() && rule_matches(#[trigger] rules[i], status.reversed());
        assert(rule_matches(rules[i], status));
    }
}

/// A rule that names the two places of a journey, in either order, puts the
/// status on the ignore list, and so does a rule that is its id.
pub proof fn lemma_rule_ignores(rules: Seq<Seq<char>>, i: int, status: StatusView)
    requires
        0 <= i < rules.len(),
        rules[i] == pair_text(status.origin, status.destination) || rules[i] == pair_text(
            status.destination,
            status.origin,
        ) || rules[i] == decimal_text(status.id as nat),
    ensures
        on_ignore_list(rules, status),
        !keeps(rules, status),
{
    assert(rule_matches(rules[i], status));
}

/// A visibility of 0, 1, 2 or 4 never turns a status away: such a status is
/// shown unless its category is denied or the ignore list has a rule about
/// it. A status with a visibility of 3, or with any other, is not shown.
pub proof fn lemma_keep_by_visibility(rules: Seq<Seq<char>>, status: StatusView)
    ensures
        status.visibility == 0 || status.visibility == 1 || status.visibility == 2
            || status.visibility == 4 ==> (keeps(rules, status) <==> !category_denied(status.category)
            && !on_ignore_list(rules, status)),
        status.visibility == 3 || status.visibility > 4 ==> !keeps(rules, status),
{
}

/// Of the statuses with an allowed visibility that the ignore list has no
/// rule about, those of an allowed category are shown, those of a denied
/// category are not, and those of any other category are shown, with a
/// remark on the category.
pub proof fn lemma_keep_by_category(rules: Seq<Seq<char>>, status: StatusView)
    requires
        visibility_allowed(status.visibility),
        !on_ignore_list(rules, status),
    ensures
        category_allowed(status.category) ==> keeps(rules, status) && warning_for(status) is None,
        category_denied(status.category) ==> !keeps(rules, status) && warning_for(status) is None,
        !category_allowed(status.category) && !category_denied(status.category) ==> keeps(rules, status)
            && warning_for(status) == Some(FilterWarning::UnexpectedCategory),
{
    lemma_category_rule(status);
}

} // verus!
