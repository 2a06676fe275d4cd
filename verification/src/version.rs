//! The mapping API version, and which versions count as legacy.
use vstd::prelude::*;
use vstd::string::*;

verus! {

/// The longest pre-release or build text that a version can carry.
pub const MAX_IDENTIFIERS: usize = 0x7000_0000;

/// Whether `c` may stand inside an identifier of a pre-release or build text.
pub open spec fn is_identifier_char(c: char) -> bool {
    ('0' <= c <= '9') || ('a' <= c <= 'z') || ('A' <= c <= 'Z') || c == '-'
}

/// Whether all characters of `text` are digits.
pub open spec fn is_numeric(text: Seq<char>) -> bool {
    forall|i: int| 0 <= i < text.len() ==> '0' <= #[trigger] text[i] <= '9'
}

/// Whether `text[from..to]` is what stands between two neighbouring dots of `text`, the ends of
/// `text` counting as dots.
pub open spec fn is_segment(text: Seq<char>, from: int, to: int) -> bool {
    &&& 0 <= from <= to <= text.len()
    &&& from == 0 || text[from - 1] == '.'
    &&& to == text.len() || text[to] == '.'
    &&& forall|i: int| from <= i < to ==> text[i] != '.'
}

/// Whether `segment` is an identifier: it is not empty, it holds identifier characters only,
/// and, where leading zeros are refused, it is not a number of several digits that starts with a
/// zero.
pub open spec fn is_identifier(segment: Seq<char>, leading_zeros: bool) -> bool {
    &&& segment.len() > 0
    &&& forall|i: int| 0 <= i < segment.len() ==> is_identifier_char(#[trigger] segment[i])
    &&& leading_zeros || !(segment.len() > 1 && segment[0] == '0' && is_numeric(segment))
}

/// Whether `text` is empty or a dot-separated list of identifiers.
pub open spec fn is_identifier_list(text: Seq<char>, leading_zeros: bool) -> bool {
    text.len() == 0 || forall|from: int, to: int|
        is_segment(text, from, to) ==> is_identifier(
            #[trigger] text.subrange(from, to),
            leading_zeros,
        )
}

/// What a version says.
pub struct ApiVersionView {
    /// Major, minor and patch number.
    pub release: (u64, u64, u64),
    /// The pre-release text, empty for a release.
    pub pre: Seq<char>,
    /// The build text, empty where there is none.
    pub build: Seq<char>,
}

/// Whether the release `a` comes before the release `b`.
pub open spec fn release_before(a: (u64, u64, u64), b: (u64, u64, u64)) -> bool {
    a.0 < b.0 || (a.0 == b.0 && (a.1 < b.1 || (a.1 == b.1 && a.2 < b.2)))
}

/// Whether a version with these parts is at most the plain release `bound`: a pre-release comes
/// before its release, a release with a build text after it.
pub open spec fn at_most_release(
    release: (u64, u64, u64),
    pre: Seq<char>,
    build: Seq<char>,
    bound: (u64, u64, u64),
) -> bool {
    release_before(release, bound) || (release == bound && (pre.len() > 0 || build.len() == 0))
}

/// The API version of a mapping.
pub struct ApiVersion {
    major: u64,
    minor: u64,
    patch: u64,
    pre: String,
    build: String,
}

/// Builds a `semver::Version` out of its parts, with `semver::Prerelease::new` and
/// `semver::BuildMetadata::new` for the two texts, and compares it by `<=` with the release
/// `bound`. Claimed: a version comes about exactly if both texts are empty or dot-separated
/// identifiers, those of the pre-release text without leading zeros in numbers; and `<=` goes by
/// the release numbers first, then puts a pre-release before the release and a build text behind
/// it.
#[verifier::external_body]
fn semver_at_most(
    release: (u64, u64, u64),
    pre: &str,
    build: &str,
    bound: (u64, u64, u64),
) -> (result: Option<bool>)
    requires
        pre@.len() <= MAX_IDENTIFIERS,
        build@.len() <= MAX_IDENTIFIERS,
    ensures
        (result is Some) == (is_identifier_list(pre@, false) && is_identifier_list(build@, true)),
        result matches Some(at_most) ==> at_most == at_most_release(release, pre@, build@, bound),
{
    let (major, minor, patch) = release;
    let pre = semver::Prerelease::new(pre).ok()?;
    let build = semver::BuildMetadata::new(build).ok()?;
    let version = semver::Version { major, minor, patch, pre, build };
    Some(version <= semver::Version::new(bound.0, bound.1, bound.2))
}

/// The last release for which a module counts as legacy.
pub const LAST_LEGACY: (u64, u64, u64) = (0, 0, 4);

impl View for ApiVersion {
    type V = ApiVersionView;

    closed spec fn view(&self) -> ApiVersionView {
        ApiVersionView {
            release: (self.major, self.minor, self.patch),
            pre: self.pre@,
            build: self.build@,
        }
    }
}

impl ApiVersionView {
    /// A version without pre-release and build text.
    pub open spec fn release(major: u64, minor: u64, patch: u64) -> ApiVersionView {
        ApiVersionView { release: (major, minor, patch), pre: Seq::empty(), build: Seq::empty() }
    }

    /// Whether the texts are such as a version may carry.
    pub open spec fn well_formed(self) -> bool {
        &&& self.pre.len() <= MAX_IDENTIFIERS
        &&& self.build.len() <= MAX_IDENTIFIERS
        &&& is_identifier_list(self.pre, false)
        &&& is_identifier_list(self.build, true)
    }

    /// Whether a module of this version is linked and started the legacy way.
    pub open spec fn legacy(self) -> bool {
        at_most_release(self.release, self.pre, self.build, LAST_LEGACY)
    }
}

impl ApiVersion {
    /// A plain release.
    pub fn new(major: u64, minor: u64, patch: u64) -> (version: ApiVersion)
        ensures
            version@ == ApiVersionView::release(major, minor, patch),
            version@.well_formed(),
    {
        ApiVersion { major, minor, patch, pre: String::new(), build: String::new() }
    }

    /// A version with a pre-release and a build text, if both texts are well formed.
    pub fn with_identifiers(
        major: u64,
        minor: u64,
        patch: u64,
        pre: String,
        build: String,
    ) -> (version: Option<ApiVersion>)
        requires
            pre@.len() <= MAX_IDENTIFIERS,
            build@.len() <= MAX_IDENTIFIERS,
        ensures
            version is Some <==> is_identifier_list(pre@, false) && is_identifier_list(
                build@,
                true,
            ),
            version is Some ==> version->0@ == (ApiVersionView {
                release: (major, minor, patch),
                pre: pre@,
                build: build@,
            }),
            version is Some ==> version->0@.well_formed(),
    {
        let release: (u64, u64, u64) = (major, minor, patch);
        match semver_at_most(release, pre.as_str(), build.as_str(), LAST_LEGACY) {
            Some(_) => Some(ApiVersion { major, minor, patch, pre, build }),
            None => None,
        }
    }

    /// Major, minor and patch number.
    pub fn release(&self) -> (release: (u64, u64, u64))
        ensures
            release == self@.release,
    {
        (self.major, self.minor, self.patch)
    }

    /// Whether a module of this version is linked and started the legacy way.
    pub fn is_legacy(&self) -> (legacy: bool)
        requires
            self@.well_formed(),
        ensures
            legacy == self@.legacy(),
    {
        let release: (u64, u64, u64) = (self.major, self.minor, self.patch);
        match semver_at_most(release, self.pre.as_str(), self.build.as_str(), LAST_LEGACY) {
            Some(legacy) => legacy,
            None => {
                assert(false);
                false
            },
        }
    }
}

/// Legacy versions are closed downwards: a version whose release comes before that of a legacy
/// version is legacy too.
pub proof fn law_legacy_is_downward_closed(older: ApiVersionView, newer: ApiVersionView)
    requires
        newer.legacy(),
        release_before(older.release, newer.release),
    ensures
        older.legacy(),
{
}

/// A plain release is what its numbers say, and carries no text.
pub proof fn law_release_is_what_its_numbers_say(major: u64, minor: u64, patch: u64)
    ensures
        ApiVersionView::release(major, minor, patch).release == (major, minor, patch),
        ApiVersionView::release(major, minor, patch).pre.len() == 0,
        ApiVersionView::release(major, minor, patch).build.len() == 0,
        ApiVersionView::release(major, minor, patch).legacy() <==> major == 0 && minor == 0
            && patch <= 4,
{
}

/// Legacy are all versions of the releases before 0.0.4, the plain release 0.0.4, and its
/// pre-releases; what the texts of a version are makes no difference.
pub proof fn law_legacy_ends_with_its_last_release(version: ApiVersionView)
    ensures
        version.legacy() <==> {
            &&& version.release.0 == 0
            &&& version.release.1 == 0
            &&& version.release.2 < 4 || (version.release.2 == 4 && (version.pre.len() > 0
                || version.build.len() == 0))
        },
{
}

/// A text without dots is an identifier exactly if it consists of letters, digits and hyphens,
/// and, where leading zeros are refused, is not a longer number that starts with a zero.
pub proof fn law_identifier_consists_of_its_characters(text: Seq<char>, leading_zeros: bool)
    requires
        text.len() > 0,
        !text.contains('.'),
    ensures
        is_identifier_list(text, leading_zeros) <==> {
            &&& forall|i: int|
                0 <= i < text.len() ==> ('0' <= #[trigger] text[i] <= '9') || ('a' <= text[i]
                    <= 'z') || ('A' <= text[i] <= 'Z') || text[i] == '-'
            &&& leading_zeros || text.len() == 1 || text[0] != '0' || exists|i: int|
                0 <= i < text.len() && !('0' <= #[trigger] text[i] <= '9')
        },
{
    assert forall|i: int| 0 <= i < text.len() implies #[trigger] text[i] != '.' by {
        assert(text.contains(text[i]));
    }
    assert(text.subrange(0, text.len() as int) =~= text);
    assert forall|from: int, to: int| is_segment(text, from, to) implies #[trigger] text.subrange(
        from,
        to,
    ) == text by {
        assert(from == 0 && to == text.len());
    }
    assert(is_segment(text, 0, text.len() as int));
    assert(is_identifier_list(text, leading_zeros) <==> is_identifier(text, leading_zeros));
    if is_identifier(text, leading_zeros) {
        assert forall|i: int| 0 <= i < text.len() implies ('0' <= #[trigger] text[i] <= '9') || (
        'a' <= text[i] <= 'z') || ('A' <= text[i] <= 'Z') || text[i] == '-' by {
            assert(is_identifier_char(text[i]));
        }
    }
}

/// Two texts with a dot between them are a list of identifiers exactly if each of the two is one
/// and neither is empty. The empty text is a list.
pub proof fn law_identifiers_are_joined_by_dots(
    front: Seq<char>,
    back: Seq<char>,
    leading_zeros: bool,
)
    ensures
        is_identifier_list(Seq::empty(), leading_zeros),
        is_identifier_list(front + seq!['.'] + back, leading_zeros) <==> front.len() > 0
            && back.len() > 0 && is_identifier_list(front, leading_zeros) && is_identifier_list(
            back,
            leading_zeros,
        ),
{
    let whole = front + seq!['.'] + back;
    let behind = front.len() + 1;
    assert(whole[front.len() as int] == '.');
    if is_identifier_list(whole, leading_zeros) {
        assert forall|from: int, to: int| is_segment(front, from, to) implies is_identifier(
            #[trigger] front.subrange(from, to),
            leading_zeros,
        ) by {
            assert forall|i: int| from <= i < to implies whole[i] != '.' by {
                assert(front[i] != '.');
            }
            assert(is_segment(whole, from, to));
            assert(whole.subrange(from, to) =~= front.subrange(from, to));
        }
        assert forall|from: int, to: int| is_segment(back, from, to) implies is_identifier(
            #[trigger] back.subrange(from, to),
            leading_zeros,
        ) by {
            assert forall|i: int| behind + from <= i < behind + to implies whole[i] != '.' by {
                assert(back[i - behind] != '.');
            }
            assert(is_segment(whole, behind + from, behind + to));
            assert(whole.subrange(behind + from, behind + to) =~= back.subrange(from, to));
        }
        if front.len() == 0 {
            assert(is_segment(front, 0, 0));
            assert(is_identifier(front.subrange(0, 0), leading_zeros));
        }
        if back.len() == 0 {
            assert(is_segment(back, 0, 0));
            assert(is_identifier(back.subrange(0, 0), leading_zeros));
        }
    }
    if front.len() > 0 && back.len() > 0 && is_identifier_list(front, leading_zeros)
        && is_identifier_list(back, leading_zeros) {
        assert forall|from: int, to: int| is_segment(whole, from, to) implies is_identifier(
            #[trigger] whole.subrange(from, to),
            leading_zeros,
        ) by {
            if from <= front.len() {
                if to > front.len() {
                    assert(whole[front.len() as int] != '.');
                }
                assert forall|i: int| from <= i < to implies front[i] != '.' by {
                    assert(whole[i] != '.');
                }
                if from > 0 {
                    assert(front[from - 1] == whole[from - 1]);
                }
                if to < front.len() {
                    assert(front[to] == whole[to]);
                }
                assert(is_segment(front, from, to));
                assert(whole.subrange(from, to) =~= front.subrange(from, to));
            } else {
                let start = from - behind;
                let end = to - behind;
                assert forall|i: int| start <= i < end implies back[i] != '.' by {
                    assert(whole[i + behind] != '.');
                }
                if start > 0 {
                    assert(back[start - 1] == whole[from - 1]);
                }
                if end < back.len() {
                    assert(back[end] == whole[to]);
                }
                assert(is_segment(back, start, end));
                assert(whole.subrange(from, to) =~= back.subrange(start, end));
            }
        }
    }
}

} // verus!
