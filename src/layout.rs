use vstd::prelude::*;

verus! {

/// The revision the site was built from, shown in the footer.
#[derive(Clone, Copy, Debug)]
pub struct GitInfo {
    pub hash: &'static str,
    pub branch: &'static str,
}

impl GitInfo {
    /// The build's revision, from the hash and branch that the build stamped.
    pub fn current(hash: &'static str, branch: &'static str) -> (r: GitInfo)
        ensures
            r.hash@ == hash@,
            r.branch@ == branch@,
    {
        GitInfo { hash, branch }
    }
}

/// The copyright years shown in the footer.
#[derive(Clone, Copy, Debug)]
pub struct DateInfo {
    pub date: &'static str,
}

impl DateInfo {
    /// The build's copyright years, as the build stamped them.
    pub fn current(date: &'static str) -> (r: DateInfo)
        ensures
            r.date@ == date@,
    {
        DateInfo { date }
    }
}

/// What every page shares: the notification banner switch, the revision
/// and the copyright years.
#[derive(Clone, Copy, Debug)]
pub struct BaseTemplate {
    pub show_noti: bool,
    pub git: GitInfo,
    pub date: DateInfo,
}

impl BaseTemplate {
    /// The shared layout state of one page.
    pub fn new(show_noti: bool, git: GitInfo, date: DateInfo) -> (r: BaseTemplate)
        ensures
            r.show_noti == show_noti,
            r.git == git,
            r.date == date,
    {
        BaseTemplate { show_noti, git, date }
    }
}

} // verus!
