//! Rendering of the container build definition: a fixed two-stage template
//! interpolated with the binary name, the ports to expose and the local files
//! to copy into the image, plus the derived image name.

use vstd::prelude::*;

use crate::text::int_text;

verus! {

/// Opening of the build definition: the toolchain stage that compiles the
/// application, creates the unprivileged identity records and installs the
/// CA trust data, followed by the start of the minimal runtime stage, up to
/// the point where the binary name is interpolated.
pub open spec fn df_head() -> Seq<char> {
    "
# Dockerfile.rockerize

FROM rust:alpine AS builder

# Add unprivileged user/group
RUN mkdir /user && \\
    echo 'nobody:x:65534:65534:nobody:/:' > /user/passwd && \\
    echo 'nobody:x:65534:' > /user/group

# Install certs
RUN apk add --no-cache ca-certificates libc-dev

# Working directory
WORKDIR /src

# Copy source files
COPY ./ ./

# Build source files
RUN cargo build --release

# Minimal image for running the application
FROM scratch as final

# Copy files from temporary image
COPY --from=builder /user/group /user/passwd /etc/
COPY --from=builder /etc/ssl/certs/ca-certificates.crt /etc/ssl/certs/
COPY --from=builder /src/target/release/"@
}

/// Between the interpolated binary name and the expose lines.
pub open spec fn df_open_ports() -> Seq<char> {
    " /

# Open ports
"@
}

/// Between the expose lines and the copy lines.
pub open spec fn df_copy_files() -> Seq<char> {
    "
# Copy local files
"@
}

/// Between the copy lines and the second interpolation of the binary name:
/// the runtime identity and the opening of the entry-point declaration.
pub open spec fn df_user() -> Seq<char> {
    "
# Will run as unprivileged user/group
USER nobody:nobody

# Entry point for the built application
ENTRYPOINT [\"/"@
}

/// Closing of the entry-point declaration.
pub open spec fn df_entry_tail() -> Seq<char> {
    "\"]

"@
}

/// The single line that exposes `port`.
pub open spec fn expose_line(port: int) -> Seq<char> {
    "EXPOSE "@ + int_text(port) + "\n"@
}

/// One expose line for each port, in input order.
pub open spec fn expose_lines(ports: Seq<i32>) -> Seq<char>
    decreases ports.len(),
{
    if ports.len() == 0 {
        Seq::empty()
    } else {
        expose_line(ports.first() as int) + expose_lines(ports.drop_first())
    }
}

/// The single line that copies `file` into the image root.
pub open spec fn copy_line(file: Seq<char>) -> Seq<char> {
    "COPY "@ + file + " ./\n"@
}

/// One copy line for each file, in input order.
pub open spec fn copy_lines(files: Seq<Seq<char>>) -> Seq<char>
    decreases files.len(),
{
    if files.len() == 0 {
        Seq::empty()
    } else {
        copy_line(files.first()) + copy_lines(files.drop_first())
    }
}

/// The complete build definition for `bin`, `ports` and `files`.
pub open spec fn dockerfile_text(bin: Seq<char>, ports: Seq<i32>, files: Seq<Seq<char>>) -> Seq<
    char,
> {
    df_head() + bin + df_open_ports() + expose_lines(ports) + df_copy_files() + copy_lines(files)
        + df_user() + bin + df_entry_tail()
}

/// The expose block is exactly the concatenation of one line per port, in
/// input order; in particular there are as many lines as ports.
pub proof fn lemma_expose_block_structure(ports: Seq<i32>)
    ensures
        expose_lines(ports) == ports.map_values(|p: i32| expose_line(p as int)).flatten(),
        ports.map_values(|p: i32| expose_line(p as int)).len() == ports.len(),
    decreases ports.len(),
{
    let lines = ports.map_values(|p: i32| expose_line(p as int));
    if ports.len() == 0 {
        assert(lines =~= Seq::<Seq<char>>::empty());
        assert(expose_lines(ports) =~= lines.flatten());
    } else {
        lemma_expose_block_structure(ports.drop_first());
        assert(ports.drop_first().map_values(|p: i32| expose_line(p as int))
            =~= lines.drop_first());
        assert(lines.flatten() == lines.first() + lines.drop_first().flatten());
        assert(expose_lines(ports) =~= lines.flatten());
    }
}

/// The copy block is exactly the concatenation of one line per file, in
/// input order; in particular there are as many lines as files.
pub proof fn lemma_copy_block_structure(files: Seq<Seq<char>>)
    ensures
        copy_lines(files) == files.map_values(|f: Seq<char>| copy_line(f)).flatten(),
        files.map_values(|f: Seq<char>| copy_line(f)).len() == files.len(),
    decreases files.len(),
{
    let lines = files.map_values(|f: Seq<char>| copy_line(f));
    if files.len() == 0 {
        assert(lines =~= Seq::<Seq<char>>::empty());
        assert(copy_lines(files) =~= lines.flatten());
    } else {
        lemma_copy_block_structure(files.drop_first());
        assert(files.drop_first().map_values(|f: Seq<char>| copy_line(f)) =~= lines.drop_first());
        assert(lines.flatten() == lines.first() + lines.drop_first().flatten());
        assert(copy_lines(files) =~= lines.flatten());
    }
}

/// Rendering is deterministic: two texts rendered from the same binary name,
/// ports and files are the same text.
pub proof fn lemma_dockerfile_deterministic(
    bin: Seq<char>,
    ports: Seq<i32>,
    files: Seq<Seq<char>>,
    r1: Seq<char>,
    r2: Seq<char>,
)
    requires
        r1 == dockerfile_text(bin, ports, files),
        r2 == dockerfile_text(bin, ports, files),
    ensures
        r1 == r2,
{
}

/// Empty port and file lists contribute no lines at all: the rendered text is
/// just the fixed template around the binary name.
pub proof fn lemma_empty_lists_produce_no_lines(bin: Seq<char>)
    ensures
        dockerfile_text(bin, Seq::empty(), Seq::empty()) == df_head() + bin + df_open_ports()
            + df_copy_files() + Seq::<char>::empty() + df_user() + bin + df_entry_tail(),
{
    assert(expose_lines(Seq::empty()) =~= Seq::<char>::empty());
    assert(copy_lines(Seq::empty()) =~= Seq::<char>::empty());
    assert(dockerfile_text(bin, Seq::empty(), Seq::empty()) =~= df_head() + bin + df_open_ports()
        + df_copy_files() + Seq::<char>::empty() + df_user() + bin + df_entry_tail());
}

/// Renders the build definition for a local build of `bin_name`, exposing
/// `exposed_ports` and copying `add_files`, in input order.
pub fn gen_dockerfile_from_local(
    bin_name: &String,
    exposed_ports: Vec<i32>,
    add_files: Vec<String>,
) -> (r: String)
    ensures
        r@ == dockerfile_text(bin_name@, exposed_ports@, add_files.deep_view()),
{
    let ghost ports_view = exposed_ports@;
    let ghost files_view = add_files.deep_view();
    let mut s = String::from_str(
        "
# Dockerfile.rockerize

FROM rust:alpine AS builder

# Add unprivileged user/group
RUN mkdir /user && \\
    echo 'nobody:x:65534:65534:nobody:/:' > /user/passwd && \\
    echo 'nobody:x:65534:' > /user/group

# Install certs
RUN apk add --no-cache ca-certificates libc-dev

# Working directory
WORKDIR /src

# Copy source files
COPY ./ ./

# Build source files
RUN cargo build --release

# Minimal image for running the application
FROM scratch as final

# Copy files from temporary image
COPY --from=builder /user/group /user/passwd /etc/
COPY --from=builder /etc/ssl/certs/ca-certificates.crt /etc/ssl/certs/
COPY --from=builder /src/target/release/",
    );
    s.append(bin_name.as_str());
    s.append(
        " /

# Open ports
",
    );
    let ghost base = df_head() + bin_name@ + df_open_ports();
    proof {
        assert(s@ =~= base);
        assert(ports_view.subrange(0, ports_view.len() as int) =~= ports_view);
    }
    let n = exposed_ports.len();
    let mut k: usize = 0;
    while k < n
        invariant
            k <= n,
            n == ports_view.len(),
            exposed_ports@ == ports_view,
            s@ + expose_lines(ports_view.subrange(k as int, n as int)) == base + expose_lines(
                ports_view,
            ),
        decreases n - k,
    {
        let ghost pre = s@;
        let ghost t = ports_view.subrange(k as int, n as int);
        s.append("EXPOSE ");
        crate::text::append_i32(&mut s, exposed_ports[k]);
        s.append("\n");
        proof {
            assert(t.first() == ports_view[k as int]);
            assert(t.drop_first() =~= ports_view.subrange(k + 1, n as int));
            assert(s@ =~= pre + expose_line(ports_view[k as int] as int));
            assert(s@ + expose_lines(ports_view.subrange(k + 1, n as int)) =~= pre + expose_lines(
                t,
            ));
        }
        k = k + 1;
    }
    proof {
        assert(ports_view.subrange(n as int, n as int) =~= Seq::<i32>::empty());
        assert(s@ + expose_lines(Seq::empty()) =~= s@);
        assert(s@ == base + expose_lines(ports_view));
    }
    s.append(
        "
# Copy local files
",
    );
    let ghost base2 = base + expose_lines(ports_view) + df_copy_files();
    proof {
        assert(s@ =~= base2);
        assert(files_view.subrange(0, files_view.len() as int) =~= files_view);
    }
    let m = add_files.len();
    let mut k2: usize = 0;
    while k2 < m
        invariant
            k2 <= m,
            m == files_view.len(),
            add_files.deep_view() == files_view,
            add_files@.len() == m,
            s@ + copy_lines(files_view.subrange(k2 as int, m as int)) == base2 + copy_lines(
                files_view,
            ),
        decreases m - k2,
    {
        let ghost pre = s@;
        let ghost t = files_view.subrange(k2 as int, m as int);
        proof {
            assert(files_view[k2 as int] == add_files@[k2 as int]@);
        }
        s.append("COPY ");
        s.append(add_files[k2].as_str());
        s.append(" ./\n");
        proof {
            assert(t.first() == files_view[k2 as int]);
            assert(t.drop_first() =~= files_view.subrange(k2 + 1, m as int));
            assert(s@ =~= pre + copy_line(files_view[k2 as int]));
            assert(s@ + copy_lines(files_view.subrange(k2 + 1, m as int)) =~= pre + copy_lines(t));
        }
        k2 = k2 + 1;
    }
    proof {
        assert(files_view.subrange(m as int, m as int) =~= Seq::<Seq<char>>::empty());
        assert(s@ + copy_lines(Seq::empty()) =~= s@);
        assert(s@ == base2 + copy_lines(files_view));
    }
    s.append(
        "
# Will run as unprivileged user/group
USER nobody:nobody

# Entry point for the built application
ENTRYPOINT [\"/",
    );
    s.append(bin_name.as_str());
    s.append("\"]

");
    proof {
        assert(s@ =~= dockerfile_text(bin_name@, ports_view, files_view));
    }
    s
}

/// The image name derived from `bin`: the fixed prefix, the binary name and
/// the fixed tag.
pub open spec fn image_name_text(bin: Seq<char>) -> Seq<char> {
    "rockerized"@ + "-"@ + bin + ":"@ + "latest"@
}

/// The image name determines the binary name: two equal image names can
/// only have come from the same binary name.
pub proof fn lemma_image_name_injective(b1: Seq<char>, b2: Seq<char>)
    requires
        image_name_text(b1) == image_name_text(b2),
    ensures
        b1 == b2,
{
    reveal_strlit("rockerized");
    reveal_strlit("-");
    reveal_strlit(":");
    reveal_strlit("latest");
    assert("rockerized"@.len() == 10);
    assert("-"@.len() == 1);
    assert(":"@.len() == 1);
    assert("latest"@.len() == 6);
    assert(image_name_text(b1).len() == 18 + b1.len());
    assert(image_name_text(b2).len() == 18 + b2.len());
    assert(b1.len() == b2.len());
    assert forall|i: int| 0 <= i < b1.len() implies b1[i] == b2[i] by {
        assert(image_name_text(b1)[11 + i] == b1[i]);
        assert(image_name_text(b2)[11 + i] == b2[i]);
    }
    assert(b1 =~= b2);
}

/// Derives the image name for `bin_name`.
pub fn gen_image_name(bin_name: &String) -> (r: String)
    ensures
        r@ == image_name_text(bin_name@),
{
    let mut s = String::from_str("rockerized");
    s.append("-");
    s.append(bin_name.as_str());
    s.append(":");
    s.append("latest");
    proof {
        assert(s@ =~= image_name_text(bin_name@));
    }
    s
}

} // verus!
