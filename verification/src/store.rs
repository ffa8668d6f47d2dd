//! A model of local storage, and what the planned steps do to it.
//!
//! Storage is a map from the path of each file to the bytes it holds. The
//! remote side is a function from each address to the bytes served there.

use crate::plan::{
    joined, page_plan, payload_path, payload_steps, record_plan, record_steps, sidecar_line,
    sidecar_path, StepView,
};
use crate::record::Record;
use crate::target::Target;
use vstd::prelude::*;
use vstd::utf8::encode_utf8;

verus! {

/// What a file holds; nothing where there is no such file.
pub open spec fn content(files: Map<Seq<char>, Seq<u8>>, file: Seq<char>) -> Seq<u8> {
    if files.contains_key(file) {
        files[file]
    } else {
        Seq::empty()
    }
}

/// Storage after a step was performed.
pub open spec fn perform(
    step: StepView,
    remote: spec_fn(Seq<char>) -> Seq<u8>,
    files: Map<Seq<char>, Seq<u8>>,
) -> Map<Seq<char>, Seq<u8>> {
    match step {
        StepView::CreateFolder { .. } => files,
        StepView::Report { .. } => files,
        StepView::WriteLine { file, line } => files.insert(file, encode_utf8(line)),
        StepView::AppendLine { file, line } => files.insert(
            file,
            content(files, file) + encode_utf8(line),
        ),
        StepView::Download { url, file } => files.insert(file, remote(url)),
    }
}

/// Storage after the steps were performed in order.
pub open spec fn perform_all(
    steps: Seq<StepView>,
    remote: spec_fn(Seq<char>) -> Seq<u8>,
    files: Map<Seq<char>, Seq<u8>>,
) -> Map<Seq<char>, Seq<u8>>
    decreases steps.len(),
{
    if steps.len() == 0 {
        files
    } else {
        perform(steps.last(), remote, perform_all(steps.drop_last(), remote, files))
    }
}

/// The lines of the text file of a record with these payload addresses:
/// one for each address, in order.
pub open spec fn sidecar_lines(urls: Seq<Seq<char>>) -> Seq<Seq<char>> {
    Seq::new(urls.len(), |i: int| sidecar_line(urls[i]))
}

/// The bytes of a text file that holds these lines, one behind the other.
pub open spec fn text_bytes(lines: Seq<Seq<char>>) -> Seq<u8>
    decreases lines.len(),
{
    if lines.len() == 0 {
        Seq::empty()
    } else {
        text_bytes(lines.drop_last()) + encode_utf8(lines.last())
    }
}

/// Storage with the two files of a record as storing the record leaves
/// them: the text file lists every payload address, the payload file holds
/// what is served at the last.
pub open spec fn with_record(
    files: Map<Seq<char>, Seq<u8>>,
    parent: Seq<char>,
    target: Target,
    record: Record,
    remote: spec_fn(Seq<char>) -> Seq<u8>,
) -> Map<Seq<char>, Seq<u8>> {
    files.insert(
        sidecar_path(parent, target, record),
        text_bytes(sidecar_lines(record.urls)),
    ).insert(
        payload_path(parent, target, record),
        remote(record.urls.last()),
    )
}

/// Storage with the files of every record of a page that has payloads, a
/// later record's files replacing those of an earlier one of the same name.
pub open spec fn with_page(
    files: Map<Seq<char>, Seq<u8>>,
    parent: Seq<char>,
    target: Target,
    records: Seq<Record>,
    remote: spec_fn(Seq<char>) -> Seq<u8>,
) -> Map<Seq<char>, Seq<u8>>
    decreases records.len(),
{
    if records.len() == 0 {
        files
    } else {
        let earlier = with_page(files, parent, target, records.drop_last(), remote);
        if records.last().eligible() {
            with_record(earlier, parent, target, records.last(), remote)
        } else {
            earlier
        }
    }
}

/// Performing two lists of steps one after the other is performing their
/// concatenation.
pub proof fn lemma_perform_concat(
    first: Seq<StepView>,
    second: Seq<StepView>,
    remote: spec_fn(Seq<char>) -> Seq<u8>,
    files: Map<Seq<char>, Seq<u8>>,
)
    ensures
        perform_all(first + second, remote, files) == perform_all(
            second,
            remote,
            perform_all(first, remote, files),
        ),
    decreases second.len(),
{
    if second.len() == 0 {
        assert(first + second =~= first);
    } else {
        assert((first + second).drop_last() =~= first + second.drop_last());
        lemma_perform_concat(first, second.drop_last(), remote, files);
    }
}

/// The text file and the payload file of a record are two files.
pub proof fn lemma_paths_differ(parent: Seq<char>, target: Target, record: Record)
    ensures
        sidecar_path(parent, target, record) != payload_path(parent, target, record),
{
    reveal_strlit("url");
    reveal_strlit("raw");
    reveal_strlit("-");
    let stem = record.name() + "-"@ + target.tag() + "-beacon."@;
    let text = stem + "url"@;
    let bytes = stem + "raw"@;
    assert(stem.len() > 0);
    assert(text[0] == stem[0] && bytes[0] == stem[0]);
    assert(text[stem.len() as int] == 'u');
    assert(bytes[stem.len() as int] == 'r');
    let sidecar = joined(parent, text);
    let payload = joined(parent, bytes);
    assert(sidecar.len() == payload.len());
    assert(sidecar[sidecar.len() - 3] == 'u');
    assert(payload[payload.len() - 3] == 'r');
}

proof fn lemma_payload_steps(
    parent: Seq<char>,
    target: Target,
    record: Record,
    k: int,
    remote: spec_fn(Seq<char>) -> Seq<u8>,
    files: Map<Seq<char>, Seq<u8>>,
)
    requires
        0 <= k < record.urls.len(),
    ensures
        perform_all(payload_steps(parent, target, record, k), remote, files) == perform(
            payload_steps(parent, target, record, k)[1],
            remote,
            perform(payload_steps(parent, target, record, k)[0], remote, files),
        ),
{
    let steps = payload_steps(parent, target, record, k);
    assert(steps.drop_last() =~= seq![steps[0]]);
    assert(steps.drop_last().drop_last() =~= Seq::empty());
    assert(perform_all(steps.drop_last().drop_last(), remote, files) == files);
    assert(perform_all(steps.drop_last(), remote, files) == perform(steps[0], remote, files));
}

proof fn lemma_record_steps(
    parent: Seq<char>,
    target: Target,
    record: Record,
    k: nat,
    remote: spec_fn(Seq<char>) -> Seq<u8>,
    files: Map<Seq<char>, Seq<u8>>,
)
    requires
        1 <= k <= record.urls.len(),
    ensures
        perform_all(record_steps(parent, target, record, k), remote, files) == files.insert(
            sidecar_path(parent, target, record),
            text_bytes(sidecar_lines(record.urls.take(k as int))),
        ).insert(payload_path(parent, target, record), remote(record.urls[k - 1])),
    decreases k,
{
    let sidecar = sidecar_path(parent, target, record);
    let payload = payload_path(parent, target, record);
    let before = record_steps(parent, target, record, (k - 1) as nat);
    let steps = payload_steps(parent, target, record, k - 1);
    let listed = sidecar_lines(record.urls.take(k as int));
    lemma_paths_differ(parent, target, record);
    lemma_perform_concat(before, steps, remote, files);
    assert(listed.drop_last() =~= sidecar_lines(record.urls.take(k - 1)));
    assert(listed.last() == sidecar_line(record.urls[k - 1]));
    if k == 1 {
        assert(before.drop_last() =~= Seq::empty());
        assert(perform_all(before.drop_last(), remote, files) == files);
        assert(perform_all(before, remote, files) == files);
        lemma_payload_steps(parent, target, record, 0, remote, files);
        assert(text_bytes(listed.drop_last()) =~= Seq::empty());
        assert(text_bytes(listed) =~= encode_utf8(sidecar_line(record.urls[0])));
    } else {
        lemma_record_steps(parent, target, record, (k - 1) as nat, remote, files);
        let earlier = perform_all(before, remote, files);
        lemma_payload_steps(parent, target, record, k - 1, remote, earlier);
        assert(content(earlier, sidecar) == text_bytes(listed.drop_last()));
    }
    assert(perform_all(record_steps(parent, target, record, k), remote, files) =~= files.insert(
        sidecar,
        text_bytes(listed),
    ).insert(payload, remote(record.urls[k - 1])));
}

/// A record without payloads leaves storage as it is: nothing is planned
/// for it.
pub proof fn law_nothing_stored_without_payloads(
    parent: Seq<char>,
    target: Target,
    record: Record,
    remote: spec_fn(Seq<char>) -> Seq<u8>,
    files: Map<Seq<char>, Seq<u8>>,
)
    requires
        record.urls.len() == 0,
    ensures
        record_plan(parent, target, record).len() == 0,
        perform_all(record_plan(parent, target, record), remote, files) == files,
{
}

/// Storing a record with payloads leaves its text file with as many lines
/// as the record has payloads, the line of each payload's address in the
/// record's order, and its payload file with the bytes served at the last
/// address. No other file changes.
pub proof fn law_record_stored(
    parent: Seq<char>,
    target: Target,
    record: Record,
    remote: spec_fn(Seq<char>) -> Seq<u8>,
    files: Map<Seq<char>, Seq<u8>>,
)
    requires
        record.urls.len() >= 1,
    ensures
        ({
            let after = perform_all(record_plan(parent, target, record), remote, files);
            let sidecar = sidecar_path(parent, target, record);
            let payload = payload_path(parent, target, record);
            &&& after == with_record(files, parent, target, record, remote)
            &&& after.contains_key(sidecar) && after[sidecar] == text_bytes(
                sidecar_lines(record.urls),
            )
            &&& sidecar_lines(record.urls).len() == record.urls.len()
            &&& after.contains_key(payload) && after[payload] == remote(record.urls.last())
            &&& forall|file: Seq<char>|
                file != sidecar && file != payload ==> (after.contains_key(file)
                    <==> files.contains_key(file)) && after[file] == files[file]
        }),
{
    lemma_paths_differ(parent, target, record);
    lemma_record_steps(parent, target, record, record.urls.len(), remote, files);
    assert(record.urls.take(record.urls.len() as int) =~= record.urls);
}

/// Storing the records of a page leaves storage with the files of every
/// record that has payloads, and changes nothing else.
pub proof fn law_page_stored(
    parent: Seq<char>,
    target: Target,
    records: Seq<Record>,
    remote: spec_fn(Seq<char>) -> Seq<u8>,
    files: Map<Seq<char>, Seq<u8>>,
)
    ensures
        perform_all(page_plan(parent, target, records), remote, files) == with_page(
            files,
            parent,
            target,
            records,
            remote,
        ),
    decreases records.len(),
{
    if records.len() > 0 {
        let earlier = records.drop_last();
        let last = records.last();
        law_page_stored(parent, target, earlier, remote, files);
        lemma_perform_concat(
            page_plan(parent, target, earlier),
            record_plan(parent, target, last),
            remote,
            files,
        );
        if last.eligible() {
            law_record_stored(
                parent,
                target,
                last,
                remote,
                perform_all(page_plan(parent, target, earlier), remote, files),
            );
        }
    }
}

/// Steps that leave behind the same files whatever storage held before:
/// what they write owes nothing to what was there.
pub open spec fn self_contained(
    steps: Seq<StepView>,
    remote: spec_fn(Seq<char>) -> Seq<u8>,
) -> bool {
    forall|files: Map<Seq<char>, Seq<u8>>| #[trigger]
        perform_all(steps, remote, files) == files.union_prefer_right(
            perform_all(steps, remote, Map::empty()),
        )
}

/// Steps that only make folders and show progress write nothing.
pub open spec fn silent(steps: Seq<StepView>) -> bool {
    forall|i: int|
        0 <= i < steps.len() ==> #[trigger] steps[i] is CreateFolder || steps[i] is Report
}

/// Silent steps leave storage as it is.
pub proof fn lemma_silent_steps(
    steps: Seq<StepView>,
    remote: spec_fn(Seq<char>) -> Seq<u8>,
    files: Map<Seq<char>, Seq<u8>>,
)
    requires
        silent(steps),
    ensures
        perform_all(steps, remote, files) == files,
    decreases steps.len(),
{
    if steps.len() > 0 {
        let earlier = steps.drop_last();
        assert forall|i: int| 0 <= i < earlier.len() implies #[trigger] earlier[i] is CreateFolder
            || earlier[i] is Report by {
            assert(earlier[i] == steps[i]);
        }
        lemma_silent_steps(earlier, remote, files);
        assert(steps[steps.len() - 1] is CreateFolder || steps[steps.len() - 1] is Report);
    }
}

/// Silent steps are self-contained.
pub proof fn lemma_silent_self_contained(
    steps: Seq<StepView>,
    remote: spec_fn(Seq<char>) -> Seq<u8>,
)
    requires
        silent(steps),
    ensures
        self_contained(steps, remote),
{
    assert forall|files: Map<Seq<char>, Seq<u8>>| #[trigger]
        perform_all(steps, remote, files) == files.union_prefer_right(
            perform_all(steps, remote, Map::empty()),
        ) by {
        lemma_silent_steps(steps, remote, files);
        lemma_silent_steps(steps, remote, Map::empty());
        assert(files.union_prefer_right(Map::empty()) =~= files);
    }
}

/// Self-contained steps followed by self-contained steps are
/// self-contained.
pub proof fn lemma_self_contained_concat(
    first: Seq<StepView>,
    second: Seq<StepView>,
    remote: spec_fn(Seq<char>) -> Seq<u8>,
)
    requires
        self_contained(first, remote),
        self_contained(second, remote),
    ensures
        self_contained(first + second, remote),
{
    let empty = Map::<Seq<char>, Seq<u8>>::empty();
    let first_writes = perform_all(first, remote, empty);
    let second_writes = perform_all(second, remote, empty);
    lemma_perform_concat(first, second, remote, empty);
    assert(perform_all(second, remote, first_writes) == first_writes.union_prefer_right(
        second_writes,
    ));
    assert forall|files: Map<Seq<char>, Seq<u8>>| #[trigger]
        perform_all(first + second, remote, files) == files.union_prefer_right(
            perform_all(first + second, remote, empty),
        ) by {
        lemma_perform_concat(first, second, remote, files);
        let between = perform_all(first, remote, files);
        assert(between == files.union_prefer_right(first_writes));
        assert(perform_all(second, remote, between) == between.union_prefer_right(second_writes));
        assert(files.union_prefer_right(first_writes).union_prefer_right(second_writes)
            =~= files.union_prefer_right(first_writes.union_prefer_right(second_writes)));
    }
}

proof fn lemma_page_overrides(
    parent: Seq<char>,
    target: Target,
    records: Seq<Record>,
    remote: spec_fn(Seq<char>) -> Seq<u8>,
    files: Map<Seq<char>, Seq<u8>>,
)
    ensures
        with_page(files, parent, target, records, remote) == files.union_prefer_right(
            with_page(Map::empty(), parent, target, records, remote),
        ),
    decreases records.len(),
{
    if records.len() > 0 {
        lemma_page_overrides(parent, target, records.drop_last(), remote, files);
    }
    assert(with_page(files, parent, target, records, remote) =~= files.union_prefer_right(
        with_page(Map::empty(), parent, target, records, remote),
    ));
}

/// The steps that store a page are self-contained: the text file of each
/// record is begun anew before it is added to.
pub proof fn lemma_page_self_contained(
    parent: Seq<char>,
    target: Target,
    records: Seq<Record>,
    remote: spec_fn(Seq<char>) -> Seq<u8>,
)
    ensures
        self_contained(page_plan(parent, target, records), remote),
{
    let steps = page_plan(parent, target, records);
    assert forall|files: Map<Seq<char>, Seq<u8>>| #[trigger]
        perform_all(steps, remote, files) == files.union_prefer_right(
            perform_all(steps, remote, Map::empty()),
        ) by {
        law_page_stored(parent, target, records, remote, files);
        law_page_stored(parent, target, records, remote, Map::empty());
        lemma_page_overrides(parent, target, records, remote, files);
    }
}

/// Performing self-contained steps a second time changes nothing.
pub proof fn lemma_self_contained_twice(
    steps: Seq<StepView>,
    remote: spec_fn(Seq<char>) -> Seq<u8>,
    files: Map<Seq<char>, Seq<u8>>,
)
    requires
        self_contained(steps, remote),
    ensures
        ({
            let once = perform_all(steps, remote, files);
            perform_all(steps, remote, once) == once
        }),
{
    let once = perform_all(steps, remote, files);
    let written = perform_all(steps, remote, Map::empty());
    assert(once == files.union_prefer_right(written));
    assert(perform_all(steps, remote, once) == once.union_prefer_right(written));
    assert(files.union_prefer_right(written).union_prefer_right(written)
        =~= files.union_prefer_right(written));
}

} // verus!
