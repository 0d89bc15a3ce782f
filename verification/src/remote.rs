//! What is sent to a build worker: where the package goes, and the commands
//! that unpack and build it there.

use crate::text::{concat2, concat3};
use vstd::prelude::*;

verus! {

/// Account on the build worker that receives and builds the package.
pub const BUILD_WORKER_USER: &'static str = "ubuntu";

/// Permission bits of the uploaded package.
pub const PACKAGE_MODE: i32 = 0o644;

/// Largest number of bytes of the package that is read and sent at once.
pub const UPLOAD_CHUNK_BYTES: u64 = 1000;

/// Largest number of bytes of a command's output that is read and shown at
/// once.
pub const OUTPUT_CHUNK_BYTES: u64 = 10;

/// The address of the worker's SSH service.
pub open spec fn worker_address_of(ip: Seq<char>) -> Seq<char> {
    ip + ":22"@
}

/// Where the package `package` lies on the worker after the upload.
pub open spec fn remote_package_path_of(package: Seq<char>) -> Seq<char> {
    "/tmp/"@ + package
}

/// The command that creates the deployment directory on the worker.
pub open spec fn make_deployment_dir_command_text() -> Seq<char> {
    "mkdir -p /home/"@ + BUILD_WORKER_USER@ + "/deployment"@
}

/// The command that unpacks the uploaded package into the deployment
/// directory.
pub open spec fn unpack_command_of(package: Seq<char>) -> Seq<char> {
    "tar -xzvf /tmp/"@ + package + " -C /home/"@ + BUILD_WORKER_USER@ + "/deployment"@
}

/// The build arguments as they are appended to the build command: each one
/// after ` --build-arg `.
pub open spec fn build_args_text(args: Seq<Seq<char>>) -> Seq<char>
    decreases args.len(),
{
    if args.len() == 0 {
        Seq::empty()
    } else {
        build_args_text(args.drop_last()) + " --build-arg "@ + args.last()
    }
}

/// The command that builds the version `version` on the worker.
pub open spec fn build_command_of(version: Seq<char>, args: Seq<Seq<char>>) -> Seq<char> {
    "/home/"@ + BUILD_WORKER_USER@ + "/chiliseed-build-worker -v "@ + version + build_args_text(
        args,
    )
}

/// The number of bytes of a package of `size` bytes that are read and sent
/// next, when `sent` bytes have gone: what is left, but no more than one
/// chunk.
pub open spec fn chunk_len_of(size: nat, sent: nat) -> nat {
    if sent >= size {
        0
    } else if size - sent < UPLOAD_CHUNK_BYTES {
        (size - sent) as nat
    } else {
        UPLOAD_CHUNK_BYTES as nat
    }
}

/// The number of bytes of a package of `size` bytes that have gone after
/// `chunks` chunks.
pub open spec fn sent_after(size: nat, chunks: nat) -> nat
    decreases chunks,
{
    if chunks == 0 {
        0
    } else {
        sent_after(size, (chunks - 1) as nat) + chunk_len_of(
            size,
            sent_after(size, (chunks - 1) as nat),
        )
    }
}

/// The number of chunks in which a package of `size` bytes is sent.
pub open spec fn chunk_count_of(size: nat) -> nat {
    ((size + UPLOAD_CHUNK_BYTES - 1) / (UPLOAD_CHUNK_BYTES as int)) as nat
}

/// After any number of chunks, as many bytes have gone as these chunks can
/// hold, or all of them.
pub proof fn lemma_sent_after(size: nat, chunks: nat)
    ensures
        sent_after(size, chunks) == if chunks * UPLOAD_CHUNK_BYTES < size {
            chunks * UPLOAD_CHUNK_BYTES
        } else {
            size as int
        },
    decreases chunks,
{
    if chunks > 0 {
        let before = (chunks - 1) as nat;
        lemma_sent_after(size, before);
        assert(before * UPLOAD_CHUNK_BYTES + UPLOAD_CHUNK_BYTES == chunks * UPLOAD_CHUNK_BYTES)
            by (nonlinear_arith)
            requires
                before + 1 == chunks,
        ;
    }
}

/// A package is sent whole in `chunk_count_of(size)` chunks and in no
/// fewer, and no chunk is larger than the chunk size.
pub proof fn lemma_upload_covers(size: nat, chunks: nat)
    ensures
        sent_after(size, chunk_count_of(size)) == size,
        chunks < chunk_count_of(size) ==> sent_after(size, chunks) < size,
        chunk_len_of(size, sent_after(size, chunks)) <= UPLOAD_CHUNK_BYTES,
{
    lemma_sent_after(size, chunk_count_of(size));
    lemma_sent_after(size, chunks);
    let count = chunk_count_of(size);
    assert(count * 1000 >= size && (count > 0 ==> (count - 1) * 1000 < size)) by (nonlinear_arith)
        requires
            count == (size + 999) / 1000,
    ;
    if chunks < count {
        assert(chunks * 1000 <= (count - 1) * 1000) by (nonlinear_arith)
            requires
                chunks <= count - 1,
        ;
    }
}

/// The number of bytes of the package to read and send next, when `sent` of
/// its `size` bytes have gone.  None are left when it is zero.
pub fn next_chunk_len(size: u64, sent: u64) -> (r: u64)
    ensures
        r == chunk_len_of(size as nat, sent as nat),
{
    if sent >= size {
        0
    } else if size - sent < UPLOAD_CHUNK_BYTES {
        size - sent
    } else {
        UPLOAD_CHUNK_BYTES
    }
}

/// The address of the SSH service of the worker at `ip`.
pub fn worker_address(ip: &str) -> (r: String)
    ensures
        r@ == worker_address_of(ip@),
{
    concat2(ip, ":22")
}

/// Where the package `package` lies on the worker after the upload.
pub fn remote_package_path(package: &str) -> (r: String)
    ensures
        r@ == remote_package_path_of(package@),
{
    concat2("/tmp/", package)
}

/// The command that creates the deployment directory on the worker.
pub fn make_deployment_dir_command() -> (r: String)
    ensures
        r@ == make_deployment_dir_command_text(),
{
    concat3("mkdir -p /home/", BUILD_WORKER_USER, "/deployment")
}

/// The command that unpacks the uploaded package `package` into the
/// deployment directory.
pub fn unpack_command(package: &str) -> (r: String)
    ensures
        r@ == unpack_command_of(package@),
{
    let mut out = concat3("tar -xzvf /tmp/", package, " -C /home/");
    out.append(BUILD_WORKER_USER);
    out.append("/deployment");
    out
}

/// The command that builds the version `version` on the worker, handing on
/// each build argument.
pub fn build_command(version: &str, build_args: &Vec<String>) -> (r: String)
    ensures
        r@ == build_command_of(version@, build_args.deep_view()),
{
    let mut out = concat3("/home/", BUILD_WORKER_USER, "/chiliseed-build-worker -v ");
    out.append(version);
    let ghost head = out@;
    let mut i: usize = 0;
    assert(build_args.deep_view().take(0) =~= Seq::<Seq<char>>::empty());
    while i < build_args.len()
        invariant
            i <= build_args@.len(),
            out@ == head + build_args_text(build_args.deep_view().take(i as int)),
        decreases build_args@.len() - i,
    {
        proof {
            let args = build_args.deep_view();
            assert(args.take(i as int + 1).drop_last() =~= args.take(i as int));
            assert(args.take(i as int + 1).last() == build_args@[i as int]@);
        }
        out.append(" --build-arg ");
        out.append(build_args[i].as_str());
        i += 1;
    }
    assert(build_args.deep_view().take(i as int) =~= build_args.deep_view());
    out
}

} // verus!
