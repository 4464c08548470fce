use vstd::prelude::*;

verus! {

/// Errors of the extraction scheduler.
#[derive(Debug, Clone)]
pub enum ExtractionError {
    PlanetLocationNotConfigured,
    PlanetFileNotFound(String),
    ExtractionFailed(i64, String),
    DatabaseError(String),
    IoError(String),
}

/// Where the large source file is read from: a local file or a remote URL.
#[derive(Debug, Clone)]
pub enum PlanetSource {
    Local(String),
    Remote(String),
}

impl PlanetSource {
    pub open spec fn location(&self) -> Seq<char> {
        match self {
            PlanetSource::Local(p) => p@,
            PlanetSource::Remote(u) => u@,
        }
    }

    /// True if this is a remote URL.
    pub fn is_remote(&self) -> (r: bool)
        ensures
            r <==> self is Remote,
    {
        match self {
            PlanetSource::Local(_) => false,
            PlanetSource::Remote(_) => true,
        }
    }

    /// The source as handed to the extraction tool.
    pub fn as_str(&self) -> (r: &str)
        ensures
            r@ == self.location(),
    {
        match self {
            PlanetSource::Local(p) => p.as_str(),
            PlanetSource::Remote(u) => u.as_str(),
        }
    }
}

pub open spec fn has_prefix(s: Seq<char>, prefix: Seq<char>) -> bool {
    prefix.len() <= s.len() && s.take(prefix.len() as int) == prefix
}

/// True when `s` begins with `prefix`.
pub fn starts_with(s: &str, prefix: &str) -> (r: bool)
    ensures
        r == has_prefix(s@, prefix@),
{
    let n = s.unicode_len();
    let k = prefix.unicode_len();
    if k > n {
        return false;
    }
    let mut j: usize = 0;
    while j < k
        invariant
            n == s@.len(),
            k == prefix@.len(),
            k <= n,
            j <= k,
            forall|t: int| 0 <= t < j ==> s@[t] == prefix@[t],
        decreases k - j,
    {
        if s.get_char(j) != prefix.get_char(j) {
            proof {
                assert(s@.take(k as int)[j as int] != prefix@[j as int]);
            }
            return false;
        }
        j = j + 1;
    }
    proof {
        assert(s@.take(k as int) =~= prefix@);
    }
    true
}

pub open spec fn is_url(location: Seq<char>) -> bool {
    has_prefix(location, "http://"@) || has_prefix(location, "https://"@)
}

/// Resolves the configured source location. A location that starts with `http://`
/// or `https://` is remote; any other is a local path, which must exist.
pub fn get_planet_source(location: &Option<String>, local_file_exists: bool) -> (r: Result<
    PlanetSource,
    ExtractionError,
>)
    ensures
        location is None ==> r matches Err(ExtractionError::PlanetLocationNotConfigured),
        location is Some && is_url(location->Some_0@) ==> (r matches Ok(
            PlanetSource::Remote(u),
        ) && u@ == location->Some_0@),
        location is Some && !is_url(location->Some_0@) && local_file_exists ==> (r matches Ok(
            PlanetSource::Local(p),
        ) && p@ == location->Some_0@),
        location is Some && !is_url(location->Some_0@) && !local_file_exists ==> (r matches Err(
            ExtractionError::PlanetFileNotFound(p),
        ) && p@ == location->Some_0@),
{
    proof {
        reveal_strlit("http://");
        reveal_strlit("https://");
    }
    match location {
        None => Err(ExtractionError::PlanetLocationNotConfigured),
        Some(loc) => {
            if starts_with(loc.as_str(), "http://") || starts_with(loc.as_str(), "https://") {
                Ok(PlanetSource::Remote(loc.clone()))
            } else if local_file_exists {
                Ok(PlanetSource::Local(loc.clone()))
            } else {
                Err(ExtractionError::PlanetFileNotFound(loc.clone()))
            }
        },
    }
}

/// The regions of a country that still need extracting, in catalog order: those whose
/// output file does not exist yet.
pub open spec fn still_to_extract(ids: Seq<i64>, existing: Seq<bool>) -> Seq<i64>
    decreases ids.len(),
{
    if ids.len() == 0 || existing.len() == 0 {
        Seq::empty()
    } else {
        let prev = still_to_extract(ids.drop_last(), existing.drop_last());
        if existing.last() {
            prev
        } else {
            prev.push(ids.last())
        }
    }
}

/// How many regions already have their output file.
pub open spec fn count_existing(existing: Seq<bool>) -> nat
    decreases existing.len(),
{
    if existing.len() == 0 {
        0
    } else {
        count_existing(existing.drop_last()) + if existing.last() {
            1nat
        } else {
            0nat
        }
    }
}

/// The work of one country: what to hand to the worker pool, and how much is done.
pub struct ExtractionPlan {
    pub to_extract: Vec<i64>,
    pub already_complete: usize,
    pub total: usize,
}

/// Splits a country's regions into those already extracted and those to schedule.
/// `existing[i]` tells whether the output file of `locality_ids[i]` exists.
pub fn plan_country(locality_ids: &Vec<i64>, existing: &Vec<bool>) -> (r: ExtractionPlan)
    requires
        locality_ids@.len() == existing@.len(),
    ensures
        r.to_extract@ == still_to_extract(locality_ids@, existing@),
        r.already_complete as nat == count_existing(existing@),
        r.total == locality_ids@.len(),
        r.already_complete + r.to_extract@.len() == r.total,
{
    let mut to_extract: Vec<i64> = Vec::new();
    let mut already: usize = 0;
    let mut i: usize = 0;
    while i < locality_ids.len()
        invariant
            locality_ids@.len() == existing@.len(),
            i <= locality_ids@.len(),
            to_extract@ == still_to_extract(
                locality_ids@.take(i as int),
                existing@.take(i as int),
            ),
            already as nat == count_existing(existing@.take(i as int)),
            already + to_extract@.len() == i,
        decreases locality_ids@.len() - i,
    {
        proof {
            assert(locality_ids@.take(i + 1).drop_last() =~= locality_ids@.take(i as int));
            assert(existing@.take(i + 1).drop_last() =~= existing@.take(i as int));
        }
        if existing[i] {
            already = already + 1;
        } else {
            to_extract.push(locality_ids[i]);
        }
        i = i + 1;
    }
    proof {
        assert(locality_ids@.take(i as int) =~= locality_ids@);
        assert(existing@.take(i as int) =~= existing@);
    }
    ExtractionPlan { to_extract, already_complete: already, total: locality_ids.len() }
}

/// Every scheduled region is one whose output did not exist.
proof fn lemma_scheduled_are_missing(ids: Seq<i64>, existing: Seq<bool>)
    requires
        ids.len() == existing.len(),
    ensures
        forall|j: int|
            0 <= j < still_to_extract(ids, existing).len() ==> exists|i: int|
                0 <= i < ids.len() && !existing[i] && ids[i] == #[trigger] still_to_extract(
                    ids,
                    existing,
                )[j],
    decreases ids.len(),
{
    if ids.len() > 0 {
        lemma_scheduled_are_missing(ids.drop_last(), existing.drop_last());
        let prev = still_to_extract(ids.drop_last(), existing.drop_last());
        assert forall|j: int|
            0 <= j < still_to_extract(ids, existing).len() implies exists|i: int|
                0 <= i < ids.len() && !existing[i] && ids[i] == #[trigger] still_to_extract(
                    ids,
                    existing,
                )[j] by {
            if j < prev.len() {
                let i = choose|i: int|
                    0 <= i < ids.drop_last().len() && !existing.drop_last()[i]
                        && ids.drop_last()[i] == prev[j];
                assert(ids[i] == ids.drop_last()[i]);
            } else {
                assert(ids[ids.len() - 1] == still_to_extract(ids, existing)[j]);
            }
        }
    }
}

proof fn lemma_split_counts(ids: Seq<i64>, existing: Seq<bool>)
    requires
        ids.len() == existing.len(),
    ensures
        count_existing(existing) + still_to_extract(ids, existing).len() == ids.len(),
    decreases ids.len(),
{
    if ids.len() > 0 {
        lemma_split_counts(ids.drop_last(), existing.drop_last());
    }
}

/// Regions whose output exists before extraction are never handed to the tool, and
/// the progress count, which starts at their number, reaches the number of regions
/// once every scheduled region has succeeded. `existing` must agree for equal identifiers,
/// as it does when it comes from one output path per identifier.
pub proof fn lemma_existing_outputs_not_reextracted(ids: Seq<i64>, existing: Seq<bool>)
    requires
        ids.len() == existing.len(),
        forall|a: int, b: int|
            0 <= a < ids.len() && 0 <= b < ids.len() && ids[a] == ids[b] ==> existing[a]
                == existing[b],
    ensures
        forall|i: int|
            0 <= i < ids.len() && #[trigger] existing[i] ==> !still_to_extract(
                ids,
                existing,
            ).contains(ids[i]),
        count_existing(existing) + still_to_extract(ids, existing).len() == ids.len(),
{
    lemma_split_counts(ids, existing);
    lemma_scheduled_are_missing(ids, existing);
    assert forall|i: int| 0 <= i < ids.len() && #[trigger] existing[i] implies !still_to_extract(
        ids,
        existing,
    ).contains(ids[i]) by {
        if still_to_extract(ids, existing).contains(ids[i]) {
            let j = choose|j: int|
                0 <= j < still_to_extract(ids, existing).len() && still_to_extract(
                    ids,
                    existing,
                )[j] == ids[i];
            assert(still_to_extract(ids, existing)[j] == ids[i]);
        }
    }
}

/// The shared count of regions of a country whose output exists.
#[derive(Debug, Clone, Copy, PartialEq, Eq, Structural)]
pub struct ExtractionProgress {
    pub completed: usize,
    pub total: usize,
}

impl ExtractionProgress {
    /// A counter that starts at the number of regions already complete.
    pub fn new(plan: &ExtractionPlan) -> (r: ExtractionProgress)
        ensures
            r.completed == plan.already_complete,
            r.total == plan.total,
    {
        ExtractionProgress { completed: plan.already_complete, total: plan.total }
    }

    /// Counts one more region as extracted; the count never passes the total.
    pub fn record_success(&mut self)
        ensures
            old(self).completed < old(self).total ==> final(self).completed == old(
                self,
            ).completed + 1,
            old(self).completed >= old(self).total ==> final(self).completed == old(
                self,
            ).completed,
            final(self).total == old(self).total,
    {
        if self.completed < self.total {
            self.completed = self.completed + 1;
        }
    }
}

/// How a run of the extraction tool ended.
#[derive(Debug, Clone)]
pub enum ToolRun {
    /// The subprocess could not be started.
    LaunchFailed(String),
    /// The subprocess ran and exited.
    Exited { success: bool, stderr: String },
}

pub open spec fn missing_output_detail() -> Seq<char> {
    "Output file not created"@
}

/// The result of extracting one region, from how the tool ended and whether the
/// output file exists afterwards.
pub fn extract_locality(locality_id: i64, run: ToolRun, output_exists: bool) -> (r: Result<
    (),
    ExtractionError,
>)
    ensures
        run matches ToolRun::LaunchFailed(e) ==> (r matches Err(
            ExtractionError::ExtractionFailed(id, d),
        ) && id == locality_id && d@ == e@),
        run matches ToolRun::Exited { success, stderr } ==> (!success ==> (r matches Err(
            ExtractionError::ExtractionFailed(id, d),
        ) && id == locality_id && d@ == stderr@)),
        run matches ToolRun::Exited { success, .. } ==> (success && !output_exists ==> (r matches Err(
            ExtractionError::ExtractionFailed(id, d),
        ) && id == locality_id && d@ == missing_output_detail())),
        r is Ok <==> (run matches ToolRun::Exited { success, .. } && success && output_exists),
{
    proof {
        reveal_strlit("Output file not created");
    }
    match run {
        ToolRun::LaunchFailed(e) => Err(ExtractionError::ExtractionFailed(locality_id, e)),
        ToolRun::Exited { success, stderr } => {
            if !success {
                Err(ExtractionError::ExtractionFailed(locality_id, stderr))
            } else if !output_exists {
                Err(
                    ExtractionError::ExtractionFailed(
                        locality_id,
                        String::from_str("Output file not created"),
                    ),
                )
            } else {
                Ok(())
            }
        },
    }
}

pub open spec fn country_failure_detail(country_code: Seq<char>) -> Seq<char> {
    "Some extraction tasks failed for country: "@ + country_code
}

/// The aggregated result of a country: an error when any of its regions failed.
pub fn country_result(country_code: &str, region_ok: &Vec<bool>) -> (r: Result<
    (),
    ExtractionError,
>)
    ensures
        r is Ok <==> forall|i: int| 0 <= i < region_ok@.len() ==> #[trigger] region_ok@[i],
        r is Err ==> (r matches Err(ExtractionError::ExtractionFailed(id, d)) && id == 0
            && d@ == country_failure_detail(country_code@)),
{
    let mut i: usize = 0;
    while i < region_ok.len()
        invariant
            i <= region_ok@.len(),
            forall|j: int| 0 <= j < i ==> #[trigger] region_ok@[j],
        decreases region_ok@.len() - i,
    {
        if !region_ok[i] {
            proof {
                reveal_strlit("Some extraction tasks failed for country: ");
            }
            let mut detail = String::from_str("Some extraction tasks failed for country: ");
            detail.append(country_code);
            return Err(ExtractionError::ExtractionFailed(0, detail));
        }
        i = i + 1;
    }
    Ok(())
}

/// Arguments of the extraction tool for one region.
pub fn extract_args(source: &PlanetSource, output_path: &str, bbox: &str) -> (r: Vec<String>)
    ensures
        r@.len() == 4,
        r@[0]@ == "extract"@,
        r@[1]@ == source.location(),
        r@[2]@ == output_path@,
        r@[3]@ == "--bbox="@ + bbox@,
{
    proof {
        reveal_strlit("extract");
        reveal_strlit("--bbox=");
    }
    let mut flag = String::from_str("--bbox=");
    flag.append(bbox);
    let mut args: Vec<String> = Vec::new();
    args.push(String::from_str("extract"));
    args.push(String::from_str(source.as_str()));
    args.push(String::from_str(output_path));
    args.push(flag);
    args
}

} // verus!
