//! Training metrics, and the updates that the daemon gets of them.
use crate::json::{
    contents, empty_object, get, insert, member, parse, parsed, reads_back,
    reads_back_without_floats, text_value, unsigned_value, Json,
};
use crate::messages::{framed, message_line};
use crate::text::{lossy, lossy_text, read_faithfully};
use vstd::prelude::*;

verus! {

/// The latest training metrics. `F` is the type of a measurement.
#[derive(Clone, Debug)]
pub struct TrainingMetrics<F> {
    pub epoch: u32,
    pub loss: F,
    pub accuracy: F,
}

impl<F: Default> Default for TrainingMetrics<F> {
    /// Metrics before the first epoch: everything is zero.
    fn default() -> (metrics: Self)
        ensures
            metrics.epoch == 0,
            call_ensures(F::default, (), metrics.loss),
            call_ensures(F::default, (), metrics.accuracy),
    {
        TrainingMetrics { epoch: 0, loss: F::default(), accuracy: F::default() }
    }
}

impl<F> TrainingMetrics<F> {
    /// Takes over the metrics of an epoch.
    pub fn update_training_metrics(&mut self, epoch: u32, loss: F, accuracy: F)
        ensures
            *final(self) == (TrainingMetrics { epoch, loss, accuracy }),
    {
        self.epoch = epoch;
        self.loss = loss;
        self.accuracy = accuracy;
    }
}

/// The metrics after `updates`, in that order.
pub open spec fn metrics_after<F>(
    before: TrainingMetrics<F>,
    updates: Seq<TrainingMetrics<F>>,
) -> TrainingMetrics<F> {
    if updates.len() == 0 {
        before
    } else {
        updates.last()
    }
}

/// How many seconds pass between two updates of the system's state.
pub const UPDATE_SECONDS: u64 = 15;

/// Whether `j` can stand for a measurement: a number, or null where it was not finite.
pub open spec fn measurement(j: Json) -> bool {
    j is Integer || j is Float || j is Null
}

/// An update of the system's state.
pub open spec fn system_update(epoch: u32, loss: Json, accuracy: Json, ram_mb: u64) -> Json {
    Json::Object(
        Map::empty().insert("type"@, Json::Text("system_update"@)).insert(
            "epoch"@,
            Json::Integer(epoch as int),
        ).insert("loss"@, loss).insert("accuracy"@, accuracy).insert(
            "ram_mb"@,
            Json::Integer(ram_mb as int),
        ).insert("vram_mb"@, Json::Integer(0)).insert("vram_total_mb"@, Json::Integer(0)),
    )
}

/// The members of an update: its type, each figure, and no other.
pub proof fn system_update_members(
    epoch: u32,
    loss: Json,
    accuracy: Json,
    ram_mb: u64,
    key: Seq<char>,
)
    ensures
        ({
            let update = system_update(epoch, loss, accuracy, ram_mb);
            &&& member(update, "type"@) == Some(Json::Text("system_update"@))
            &&& member(update, "epoch"@) == Some(Json::Integer(epoch as int))
            &&& member(update, "loss"@) == Some(loss)
            &&& member(update, "accuracy"@) == Some(accuracy)
            &&& member(update, "ram_mb"@) == Some(Json::Integer(ram_mb as int))
            &&& member(update, "vram_mb"@) == Some(Json::Integer(0))
            &&& member(update, "vram_total_mb"@) == Some(Json::Integer(0))
            &&& member(update, key) is Some ==> key == "type"@ || key == "epoch"@ || key == "loss"@
                || key == "accuracy"@ || key == "ram_mb"@ || key == "vram_mb"@ || key
                == "vram_total_mb"@
        }),
{
    reveal_strlit("type");
    reveal_strlit("epoch");
    reveal_strlit("loss");
    reveal_strlit("accuracy");
    reveal_strlit("ram_mb");
    reveal_strlit("vram_mb");
    reveal_strlit("vram_total_mb");
    assert("type"@.len() == 4 && "epoch"@.len() == 5 && "loss"@.len() == 4 && "accuracy"@.len()
        == 8 && "ram_mb"@.len() == 6 && "vram_mb"@.len() == 7 && "vram_total_mb"@.len() == 13);
    assert("type"@[0] == 't' && "loss"@[0] == 'l');
}

/// The line that tells the daemon the system's state. The memory of the graphics card is not
/// measured and given as zero.
pub fn system_update_line(
    epoch: u32,
    loss: serde_json::Value,
    accuracy: serde_json::Value,
    ram_mb: u64,
) -> (line: String)
    requires
        measurement(contents(loss)),
        measurement(contents(accuracy)),
    ensures
        line@ == framed(system_update(epoch, contents(loss), contents(accuracy), ram_mb)),
        !line@.drop_last().contains('\n'),
        reads_back(
            system_update(epoch, contents(loss), contents(accuracy), ram_mb),
            parsed(line@.drop_last()),
        ),
        !(contents(loss) is Float) && !(contents(accuracy) is Float) ==> parsed(line@.drop_last())
            == Some(system_update(epoch, contents(loss), contents(accuracy), ram_mb)),
{
    let mut update = empty_object();
    insert(&mut update, "type".to_owned(), text_value("system_update".to_owned()));
    insert(&mut update, "epoch".to_owned(), unsigned_value(epoch as u64));
    insert(&mut update, "loss".to_owned(), loss);
    insert(&mut update, "accuracy".to_owned(), accuracy);
    insert(&mut update, "ram_mb".to_owned(), unsigned_value(ram_mb));
    insert(&mut update, "vram_mb".to_owned(), unsigned_value(0));
    insert(&mut update, "vram_total_mb".to_owned(), unsigned_value(0));
    let line = message_line(&update);
    proof {
        let written = system_update(epoch, contents(loss), contents(accuracy), ram_mb);
        if !(contents(loss) is Float) && !(contents(accuracy) is Float) {
            reads_back_without_floats(written, parsed(line@.drop_last()));
        }
    }
    line
}

/// The line that tells the daemon the system's state; nothing where a value is no measurement.
pub fn checked_system_update_line(
    epoch: u32,
    loss: serde_json::Value,
    accuracy: serde_json::Value,
    ram_mb: u64,
) -> (line: Option<String>)
    ensures
        (match line {
            Some(text) => {
                &&& measurement(contents(loss)) && measurement(contents(accuracy))
                &&& text@ == framed(
                    system_update(epoch, contents(loss), contents(accuracy), ram_mb),
                )
                &&& !text@.drop_last().contains('\n')
                &&& reads_back(
                    system_update(epoch, contents(loss), contents(accuracy), ram_mb),
                    parsed(text@.drop_last()),
                )
                &&& !(contents(loss) is Float) && !(contents(accuracy) is Float) ==> parsed(
                    text@.drop_last(),
                ) == Some(system_update(epoch, contents(loss), contents(accuracy), ram_mb))
            },
            None => !measurement(contents(loss)) || !measurement(contents(accuracy)),
        }),
{
    if (loss.is_number() || loss.is_null()) && (accuracy.is_number() || accuracy.is_null()) {
        Some(system_update_line(epoch, loss, accuracy, ram_mb))
    } else {
        None
    }
}

/// The report that the system script wrote; nothing where the script failed or wrote no JSON.
pub fn system_report(success: bool, stdout: &[u8]) -> (report: Option<serde_json::Value>)
    ensures
        (match report {
            Some(value) => success && parsed(lossy(stdout@)) == Some(contents(value)),
            None => !success || parsed(lossy(stdout@)) is None,
        }),
        success ==> read_faithfully(stdout@),
{
    if success {
        match parse(lossy_text(stdout).as_str()) {
            Ok(value) => Some(value),
            Err(_) => None,
        }
    } else {
        None
    }
}

/// The used memory in a report, as the report gives it.
pub open spec fn reported_ram(report: Json) -> Option<Json> {
    match member(report, "hardware"@) {
        Some(hardware) => member(hardware, "ram_used_gb"@),
        None => None,
    }
}

/// Looks up the used memory, in gigabytes, in a report.
pub fn ram_used_gb(report: &serde_json::Value) -> (ram: Option<&serde_json::Value>)
    ensures
        (match ram {
            Some(value) => reported_ram(contents(*report)) == Some(contents(*value)),
            None => reported_ram(contents(*report)) is None,
        }),
{
    match get(report, "hardware") {
        Some(hardware) => get(hardware, "ram_used_gb"),
        None => None,
    }
}

/// Numbers can stand for measurements, and so can null, which stands for one that was not finite;
/// nothing else can.
pub proof fn numbers_and_null_are_measurements(j: Json, n: int, bits: u64)
    ensures
        measurement(Json::Integer(n)),
        measurement(Json::Float(bits)),
        measurement(Json::Null),
        j is Bool || j is Text || j is Array || j is Object ==> !measurement(j),
{
}

/// The used memory is found where a report has it: under `ram_used_gb` in `hardware`, as it is.
pub proof fn used_memory_is_found_in_the_hardware(
    report: Map<Seq<char>, Json>,
    hardware: Map<Seq<char>, Json>,
    ram: Json,
)
    ensures
        reported_ram(
            Json::Object(
                report.insert("hardware"@, Json::Object(hardware.insert("ram_used_gb"@, ram))),
            ),
        ) == Some(ram),
        reported_ram(Json::Object(report.remove("hardware"@))) is None,
        reported_ram(
            Json::Object(
                report.insert("hardware"@, Json::Object(hardware.remove("ram_used_gb"@))),
            ),
        ) is None,
{
}

/// The metrics that were set last are the ones that count.
pub proof fn latest_metrics_count<F>(
    before: TrainingMetrics<F>,
    earlier: Seq<TrainingMetrics<F>>,
    latest: TrainingMetrics<F>,
)
    ensures
        metrics_after(before, earlier.push(latest)) == latest,
        metrics_after(before, seq![]) == before,
{
    assert(earlier.push(latest).last() == latest);
}

} // verus!
