use vstd::prelude::*;

use crate::notifiers::strings_view;
use crate::config::{
    checker_ids, consistent, notifier_ids, references_declared, unique, CheckerConfig, FileConfig, Notifier,
    NotifierConfig,
};

verus! {

/// Why a configuration cannot be run.
#[derive(Clone, Debug)]
pub enum ConfigValidationError {
    /// A checker names a notifier that is not declared.
    UnknownNotifier { checker_id: String, notifier_id: String },
    /// A command notifier's command is not found on this system.
    CommandNotFound { notifier_id: String, command: String },
    /// Two checkers, or two notifiers, share an identifier.
    DuplicateIdentifier,
}

pub open spec fn unknown_notifier_message(checker_id: Seq<char>, notifier_id: Seq<char>) -> Seq<char> {
    "`checkers."@ + checker_id + ".notifiers` refers to an undeclared notifier `"@ + notifier_id + "`"@
}

pub open spec fn command_not_found_message(notifier_id: Seq<char>, command: Seq<char>) -> Seq<char> {
    "Command `"@ + command + "` of `notifiers."@ + notifier_id + "` is not found"@
}

pub open spec fn duplicate_message() -> Seq<char> {
    "Identifiers of checkers and of notifiers must be unique"@
}

impl ConfigValidationError {
    /// The message shown to the operator.
    pub fn message(&self) -> (r: String)
        ensures
            r@ == match self {
                ConfigValidationError::UnknownNotifier { checker_id, notifier_id } =>
                    unknown_notifier_message(checker_id@, notifier_id@),
                ConfigValidationError::CommandNotFound { notifier_id, command } =>
                    command_not_found_message(notifier_id@, command@),
                ConfigValidationError::DuplicateIdentifier => duplicate_message(),
            },
    {
        match self {
            ConfigValidationError::UnknownNotifier { checker_id, notifier_id } => {
                let mut r = String::from_str("`checkers.");
                r.append(checker_id.as_str());
                r.append(".notifiers` refers to an undeclared notifier `");
                r.append(notifier_id.as_str());
                r.append("`");
                r
            },
            ConfigValidationError::CommandNotFound { notifier_id, command } => {
                let mut r = String::from_str("Command `");
                r.append(command.as_str());
                r.append("` of `notifiers.");
                r.append(notifier_id.as_str());
                r.append("` is not found");
                r
            },
            ConfigValidationError::DuplicateIdentifier => String::from_str(
                "Identifiers of checkers and of notifiers must be unique",
            ),
        }
    }
}

/// The checker at `c` names, at `k`, a notifier that is not declared.
pub open spec fn dangling(config: FileConfig, c: int, k: int) -> bool {
    &&& 0 <= c < config.checkers@.len()
    &&& 0 <= k < config.checkers@[c].notifiers@.len()
    &&& !notifier_ids(config.notifiers@).contains(config.checkers@[c].notifiers@[k]@)
}

/// `(c, k)` is the first dangling reference, checkers in order and each checker's list in order.
pub open spec fn first_dangling(config: FileConfig, c: int, k: int) -> bool {
    &&& dangling(config, c, k)
    &&& forall|c2: int, k2: int| (c2 < c || (c2 == c && k2 < k)) ==> !#[trigger] dangling(config, c2, k2)
}

/// The notifier at `j` runs a command that is listed in `missing`.
pub open spec fn runs_missing(config: FileConfig, missing: Seq<Seq<char>>, j: int) -> bool {
    &&& 0 <= j < config.notifiers@.len()
    &&& match config.notifiers@[j].config {
        NotifierConfig::Command(c) => missing.contains(c.command@),
        _ => false,
    }
}

/// The notifier at `j` is the first that runs a command listed in `missing`.
pub open spec fn first_missing(config: FileConfig, missing: Seq<Seq<char>>, j: int) -> bool {
    &&& runs_missing(config, missing, j)
    &&& forall|i: int| i < j ==> !#[trigger] runs_missing(config, missing, i)
}

/// `e` reports the reference at `(c, k)` as undeclared.
pub open spec fn reports_dangling(config: FileConfig, e: ConfigValidationError, c: int, k: int) -> bool {
    match e {
        ConfigValidationError::UnknownNotifier { checker_id, notifier_id } =>
            checker_id@ == config.checkers@[c].id@ && notifier_id@ == config.checkers@[c].notifiers@[k]@,
        _ => false,
    }
}

/// `e` reports that the command of the notifier at `j` is not found.
pub open spec fn reports_missing(config: FileConfig, e: ConfigValidationError, j: int) -> bool {
    match (e, config.notifiers@[j].config) {
        (ConfigValidationError::CommandNotFound { notifier_id, command }, NotifierConfig::Command(c)) =>
            notifier_id@ == config.notifiers@[j].id@ && command@ == c.command@,
        _ => false,
    }
}

/// Whether `id` is in `ids`.
fn contains_id(ids: &Vec<String>, id: &String) -> (r: bool)
    ensures
        r == strings_view(ids@).contains(id@),
{
    let mut i: usize = 0;
    while i < ids.len()
        invariant
            0 <= i <= ids@.len(),
            forall|j: int| 0 <= j < i ==> ids@[j]@ != id@,
        decreases ids@.len() - i,
    {
        if ids[i] == *id {
            assert(strings_view(ids@)[i as int] == id@);
            return true;
        }
        i = i + 1;
    }
    proof {
        if strings_view(ids@).contains(id@) {
            let w = choose|w: int| 0 <= w < strings_view(ids@).len() && #[trigger] strings_view(ids@)[w] == id@;
            assert(ids@[w]@ != id@);
        }
    }
    false
}

/// Whether some notifier of `notifiers` is declared as `id`.
fn declared(notifiers: &Vec<Notifier>, id: &String) -> (r: bool)
    ensures
        r == notifier_ids(notifiers@).contains(id@),
{
    crate::config::find_notifier(notifiers, id.as_str()).is_some()
}

/// Every notifier that a checker names is declared; else the first reference that is not.
fn verify_checker_notifiers(config: &FileConfig) -> (r: Result<(), ConfigValidationError>)
    ensures
        r is Ok <==> references_declared(*config),
        r matches Err(e) ==> exists|c: int, k: int| #[trigger] first_dangling(*config, c, k) && reports_dangling(*config, e, c, k),
{
    let mut c: usize = 0;
    while c < config.checkers.len()
        invariant
            0 <= c <= config.checkers@.len(),
            forall|c2: int, k2: int| c2 < c ==> !#[trigger] dangling(*config, c2, k2),
        decreases config.checkers@.len() - c,
    {
        let checker = &config.checkers[c];
        let mut k: usize = 0;
        while k < checker.notifiers.len()
            invariant
                0 <= c < config.checkers@.len(),
                *checker == config.checkers@[c as int],
                0 <= k <= checker.notifiers@.len(),
                forall|c2: int, k2: int| (c2 < c || (c2 == c && k2 < k)) ==> !#[trigger] dangling(*config, c2, k2),
            decreases checker.notifiers@.len() - k,
        {
            if !declared(&config.notifiers, &checker.notifiers[k]) {
                assert(first_dangling(*config, c as int, k as int));
                return Err(ConfigValidationError::UnknownNotifier {
                    checker_id: checker.id.clone(),
                    notifier_id: checker.notifiers[k].clone(),
                });
            }
            k = k + 1;
        }
        c = c + 1;
    }
    assert forall|i: int, k: int|
        0 <= i < config.checkers@.len() && 0 <= k < config.checkers@[i].notifiers@.len() implies
        notifier_ids(config.notifiers@).contains(#[trigger] config.checkers@[i].notifiers@[k]@) by {
        assert(!dangling(*config, i, k));
    }
    Ok(())
}

/// Every command notifier's command is found; else the first notifier whose command is missing.
fn verify_command_notifiers(config: &FileConfig, missing: &Vec<String>) -> (r: Result<(), ConfigValidationError>)
    ensures
        r is Ok <==> forall|j: int| !#[trigger] runs_missing(*config, strings_view(missing@), j),
        r matches Err(e) ==> exists|j: int| #[trigger] first_missing(*config, strings_view(missing@), j) && reports_missing(*config, e, j),
{
    let ghost gone = strings_view(missing@);
    let mut j: usize = 0;
    while j < config.notifiers.len()
        invariant
            0 <= j <= config.notifiers@.len(),
            gone == strings_view(missing@),
            forall|i: int| i < j ==> !#[trigger] runs_missing(*config, gone, i),
        decreases config.notifiers@.len() - j,
    {
        let notifier = &config.notifiers[j];
        match &notifier.config {
            NotifierConfig::Command(c) => {
                if contains_id(missing, &c.command) {
                    assert(first_missing(*config, gone, j as int));
                    return Err(ConfigValidationError::CommandNotFound {
                        notifier_id: notifier.id.clone(),
                        command: c.command.clone(),
                    });
                }
            },
            _ => {},
        }
        j = j + 1;
    }
    Ok(())
}

pub open spec fn no_notifiers_warning() -> Seq<char> {
    "Notifiers are not declared. You will not get notifications."@
}

pub open spec fn empty_list_warning(checker_id: Seq<char>) -> Seq<char> {
    "`checkers."@ + checker_id + ".notifiers` is empty. You will not get notifications"@
}

pub open spec fn unused_warning(notifier_id: Seq<char>) -> Seq<char> {
    "Notifier `"@ + notifier_id + "` is not used by any of the checkers."@
}

/// A warning for each of `checkers` that names no notifier, in order.
pub open spec fn empty_list_warnings(checkers: Seq<CheckerConfig>) -> Seq<Seq<char>>
    decreases checkers.len(),
{
    if checkers.len() == 0 {
        seq![]
    } else {
        let rest = empty_list_warnings(checkers.drop_last());
        if checkers.last().notifiers@.len() == 0 {
            rest.push(empty_list_warning(checkers.last().id@))
        } else {
            rest
        }
    }
}

/// Some checker names the notifier `id`.
pub open spec fn used(config: FileConfig, id: Seq<char>) -> bool {
    exists|c: int, k: int|
        0 <= c < config.checkers@.len() && 0 <= k < config.checkers@[c].notifiers@.len()
            && #[trigger] config.checkers@[c].notifiers@[k]@ == id
}

/// A warning for each of the first `n` notifiers that no checker names, in order.
pub open spec fn unused_warnings(config: FileConfig, n: int) -> Seq<Seq<char>>
    decreases n,
{
    if n <= 0 {
        seq![]
    } else {
        let rest = unused_warnings(config, n - 1);
        if !used(config, config.notifiers@[n - 1].id@) {
            rest.push(unused_warning(config.notifiers@[n - 1].id@))
        } else {
            rest
        }
    }
}

/// The warnings for a configuration that can run: no notifier declared at all, or else each
/// checker without notifiers; then each notifier that no checker uses.
pub open spec fn warnings(config: FileConfig) -> Seq<Seq<char>> {
    let first = if config.notifiers@.len() == 0 {
        seq![no_notifiers_warning()]
    } else {
        empty_list_warnings(config.checkers@)
    };
    first + unused_warnings(config, config.notifiers@.len() as int)
}

fn verify_empty_notifiers(config: &FileConfig, warnings: &mut Vec<String>)
    ensures
        strings_view(final(warnings)@) == strings_view(old(warnings)@) + if config.notifiers@.len() == 0 {
            seq![no_notifiers_warning()]
        } else {
            empty_list_warnings(config.checkers@)
        },
{
    if config.notifiers.len() == 0 {
        let ghost before = warnings@;
        warnings.push(String::from_str("Notifiers are not declared. You will not get notifications."));
        assert(strings_view(warnings@) =~= strings_view(before) + seq![no_notifiers_warning()]);
        return;
    }
    let ghost start = strings_view(warnings@);
    let mut i: usize = 0;
    while i < config.checkers.len()
        invariant
            0 <= i <= config.checkers@.len(),
            strings_view(warnings@) == start + empty_list_warnings(config.checkers@.subrange(0, i as int)),
        decreases config.checkers@.len() - i,
    {
        let checker = &config.checkers[i];
        let ghost before = warnings@;
        assert(config.checkers@.subrange(0, i + 1).drop_last() =~= config.checkers@.subrange(0, i as int));
        if checker.notifiers.len() == 0 {
            let mut msg = String::from_str("`checkers.");
            msg.append(checker.id.as_str());
            msg.append(".notifiers` is empty. You will not get notifications");
            warnings.push(msg);
            assert(strings_view(warnings@) =~= strings_view(before).push(msg@));
        }
        i = i + 1;
    }
    assert(config.checkers@.subrange(0, i as int) =~= config.checkers@);
}

/// Whether some checker names the notifier `id`.
fn is_used(config: &FileConfig, id: &String) -> (r: bool)
    ensures
        r == used(*config, id@),
{
    let mut c: usize = 0;
    while c < config.checkers.len()
        invariant
            0 <= c <= config.checkers@.len(),
            forall|c2: int, k2: int|
                0 <= c2 < c && 0 <= k2 < config.checkers@[c2].notifiers@.len()
                    ==> #[trigger] config.checkers@[c2].notifiers@[k2]@ != id@,
        decreases config.checkers@.len() - c,
    {
        let checker = &config.checkers[c];
        let mut k: usize = 0;
        while k < checker.notifiers.len()
            invariant
                0 <= c < config.checkers@.len(),
                *checker == config.checkers@[c as int],
                0 <= k <= checker.notifiers@.len(),
                forall|c2: int, k2: int|
                    ((0 <= c2 < c && 0 <= k2 < config.checkers@[c2].notifiers@.len()) || (c2 == c && 0 <= k2 < k))
                        ==> #[trigger] config.checkers@[c2].notifiers@[k2]@ != id@,
            decreases checker.notifiers@.len() - k,
        {
            if checker.notifiers[k] == *id {
                assert(config.checkers@[c as int].notifiers@[k as int]@ == id@);
                return true;
            }
            k = k + 1;
        }
        c = c + 1;
    }
    false
}

fn verify_unused_notifiers(config: &FileConfig, warnings: &mut Vec<String>)
    ensures
        strings_view(final(warnings)@) == strings_view(old(warnings)@) + unused_warnings(
            *config,
            config.notifiers@.len() as int,
        ),
{
    let ghost start = strings_view(warnings@);
    let mut j: usize = 0;
    while j < config.notifiers.len()
        invariant
            0 <= j <= config.notifiers@.len(),
            strings_view(warnings@) == start + unused_warnings(*config, j as int),
        decreases config.notifiers@.len() - j,
    {
        let notifier = &config.notifiers[j];
        let ghost before = warnings@;
        if !is_used(config, &notifier.id) {
            let mut msg = String::from_str("Notifier `");
            msg.append(notifier.id.as_str());
            msg.append("` is not used by any of the checkers.");
            warnings.push(msg);
            assert(strings_view(warnings@) =~= strings_view(before).push(msg@));
        }
        j = j + 1;
    }
}

/// The identifiers of the checkers of `config`, in order.
fn checker_id_list(config: &FileConfig) -> (r: Vec<String>)
    ensures
        strings_view(r@) == checker_ids(config.checkers@),
{
    let mut r: Vec<String> = Vec::new();
    let mut i: usize = 0;
    while i < config.checkers.len()
        invariant
            0 <= i <= config.checkers@.len(),
            strings_view(r@) == checker_ids(config.checkers@).subrange(0, i as int),
        decreases config.checkers@.len() - i,
    {
        let ghost before = r@;
        let id = config.checkers[i].id.clone();
        r.push(id);
        assert(strings_view(r@) =~= strings_view(before).push(config.checkers@[i as int].id@));
        i = i + 1;
        assert(strings_view(r@) =~= checker_ids(config.checkers@).subrange(0, i as int));
    }
    assert(checker_ids(config.checkers@).subrange(0, i as int) =~= checker_ids(config.checkers@));
    r
}

/// The identifiers of the notifiers of `config`, in order.
fn notifier_id_list(config: &FileConfig) -> (r: Vec<String>)
    ensures
        strings_view(r@) == notifier_ids(config.notifiers@),
{
    let mut r: Vec<String> = Vec::new();
    let mut i: usize = 0;
    while i < config.notifiers.len()
        invariant
            0 <= i <= config.notifiers@.len(),
            strings_view(r@) == notifier_ids(config.notifiers@).subrange(0, i as int),
        decreases config.notifiers@.len() - i,
    {
        let ghost before = r@;
        let id = config.notifiers[i].id.clone();
        r.push(id);
        assert(strings_view(r@) =~= strings_view(before).push(config.notifiers@[i as int].id@));
        i = i + 1;
        assert(strings_view(r@) =~= notifier_ids(config.notifiers@).subrange(0, i as int));
    }
    assert(notifier_ids(config.notifiers@).subrange(0, i as int) =~= notifier_ids(config.notifiers@));
    r
}

/// Whether no identifier occurs twice in `ids`.
fn all_unique(ids: &Vec<String>) -> (r: bool)
    ensures
        r == unique(strings_view(ids@)),
{
    let ghost v = strings_view(ids@);
    let mut j: usize = 0;
    while j < ids.len()
        invariant
            0 <= j <= ids@.len(),
            v == strings_view(ids@),
            forall|a: int, b: int| 0 <= a < b < j ==> v[a] != v[b],
        decreases ids@.len() - j,
    {
        let mut i: usize = 0;
        while i < j
            invariant
                0 <= i <= j < ids@.len(),
                v == strings_view(ids@),
                forall|a: int, b: int| 0 <= a < b < j ==> v[a] != v[b],
                forall|a: int| 0 <= a < i ==> v[a] != v[j as int],
            decreases j - i,
        {
            if ids[i] == ids[j] {
                assert(v[i as int] == v[j as int]);
                return false;
            }
            i = i + 1;
        }
        j = j + 1;
    }
    true
}

/// Whether `config` is one the reactor can run on: identifiers unique within each list and
/// every notifier reference declared.
pub fn is_consistent(config: &FileConfig) -> (r: bool)
    ensures
        r == consistent(*config),
{
    let checkers = checker_id_list(config);
    let notifiers = notifier_id_list(config);
    all_unique(&checkers) && all_unique(&notifiers) && verify_checker_notifiers(config).is_ok()
}

/// `e` is the error that validation reports: the first undeclared reference if there is
/// one, else the first notifier whose command is missing.
pub open spec fn validation_error(config: FileConfig, missing: Seq<Seq<char>>, e: ConfigValidationError) -> bool {
    if !references_declared(config) {
        exists|c: int, k: int| #[trigger] first_dangling(config, c, k) && reports_dangling(config, e, c, k)
    } else {
        exists|j: int| #[trigger] first_missing(config, missing, j) && reports_missing(config, e, j)
    }
}

/// Checks that every notifier a checker names is declared, and that no command notifier runs
/// a command listed in `missing` (the commands not found on this system). On success, the
/// warnings about notifications that will never be sent.
pub fn validate_config(config: &FileConfig, missing: &Vec<String>) -> (r: Result<Vec<String>, ConfigValidationError>)
    ensures
        r is Ok <==> references_declared(*config) && forall|j: int| !#[trigger] runs_missing(*config, strings_view(missing@), j),
        r matches Ok(w) ==> strings_view(w@) == warnings(*config),
        r matches Err(e) ==> validation_error(*config, strings_view(missing@), e),
{
    match verify_checker_notifiers(config) {
        Ok(()) => {},
        Err(e) => return Err(e),
    }
    match verify_command_notifiers(config, missing) {
        Ok(()) => {},
        Err(e) => return Err(e),
    }
    let mut found: Vec<String> = Vec::new();
    verify_empty_notifiers(config, &mut found);
    verify_unused_notifiers(config, &mut found);
    assert(strings_view(found@) =~= warnings(*config));
    Ok(found)
}

} // verus!
