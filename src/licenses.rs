use vstd::prelude::*;

use crate::config::LicenseType;
use crate::files::{decimal, decimal_string, files_view, new_file, GeneratedFile};

verus! {

/// Where the license text of a project lives.
pub const LICENSE_PATH: &'static str = "/LICENSE";

/// The MIT license up to the copyright year.
pub const MIT_HEAD: &'static str = "MIT License\n\nCopyright (c) ";

/// The Apache license notice up to the copyright year.
pub const APACHE_HEAD: &'static str = "Copyright ";

/// What separates the year from the holder's name.
pub const YEAR_SEPARATOR: &'static str = " ";

/// The MIT license after the copyright holder.
pub const MIT_BODY: &'static str = r#"

Permission is hereby granted, free of charge, to any person obtaining a copy
of this software and associated documentation files (the "Software"), to deal
in the Software without restriction, including without limitation the rights
to use, copy, modify, merge, publish, distribute, sublicense, and/or sell
copies of the Software, and to permit persons to whom the Software is
furnished to do so, subject to the following conditions:

The above copyright notice and this permission notice shall be included in all
copies or substantial portions of the Software.

THE SOFTWARE IS PROVIDED "AS IS", WITHOUT WARRANTY OF ANY KIND, EXPRESS OR
IMPLIED, INCLUDING BUT NOT LIMITED TO THE WARRANTIES OF MERCHANTABILITY,
FITNESS FOR A PARTICULAR PURPOSE AND NONINFRINGEMENT. IN NO EVENT SHALL THE
AUTHORS OR COPYRIGHT HOLDERS BE LIABLE FOR ANY CLAIM, DAMAGES OR OTHER
LIABILITY, WHETHER IN AN ACTION OF CONTRACT, TORT OR OTHERWISE, ARISING FROM,
OUT OF OR IN CONNECTION WITH THE SOFTWARE OR THE USE OR OTHER DEALINGS IN THE
SOFTWARE.
"#;

/// The Apache license notice after the copyright holder.
pub const APACHE_BODY: &'static str = r#"

Licensed under the Apache License, Version 2.0 (the "License");
you may not use this file except in compliance with the License.
You may obtain a copy of the License at

    http://www.apache.org/licenses/LICENSE-2.0

Unless required by applicable law or agreed to in writing, software
distributed under the License is distributed on an "AS IS" BASIS,
WITHOUT WARRANTIES OR CONDITIONS OF ANY KIND, either express or implied.
See the License for the specific language governing permissions and
limitations under the License.
"#;

/// The license text attributed to `creator` in `year`.
pub open spec fn license_text(license: LicenseType, creator: Seq<char>, year: nat) -> Seq<char> {
    match license {
        LicenseType::Mit => MIT_HEAD@ + decimal(year) + YEAR_SEPARATOR@ + creator + MIT_BODY@,
        _ => APACHE_HEAD@ + decimal(year) + YEAR_SEPARATOR@ + creator + APACHE_BODY@,
    }
}

/// The license file of the project in directory `slug`; none without a license.
pub open spec fn license_files(
    slug: Seq<char>,
    license: LicenseType,
    creator: Seq<char>,
    year: nat,
) -> Seq<(Seq<char>, Seq<char>)> {
    if license == LicenseType::NoLicense {
        Seq::empty()
    } else {
        seq![(slug + LICENSE_PATH@, license_text(license, creator, year))]
    }
}

/// The license file, with the creator and the year filled in.
pub fn create_license_file(
    project_slug: &str,
    license: LicenseType,
    creator: &str,
    copyright_year: u64,
) -> (r: Vec<GeneratedFile>)
    ensures
        files_view(r@) == license_files(project_slug@, license, creator@, copyright_year as nat),
{
    let mut r: Vec<GeneratedFile> = Vec::new();
    if license == LicenseType::NoLicense {
        assert(files_view(r@) =~= Seq::empty());
        return r;
    }
    let mut path = String::from_str(project_slug);
    path.append(LICENSE_PATH);
    let mut content = if license == LicenseType::Mit {
        String::from_str(MIT_HEAD)
    } else {
        String::from_str(APACHE_HEAD)
    };
    let year = decimal_string(copyright_year);
    content.append(year.as_str());
    content.append(YEAR_SEPARATOR);
    content.append(creator);
    if license == LicenseType::Mit {
        content.append(MIT_BODY);
    } else {
        content.append(APACHE_BODY);
    }
    r.push(new_file(path, content));
    assert(files_view(r@) =~= license_files(
        project_slug@,
        license,
        creator@,
        copyright_year as nat,
    ));
    r
}

} // verus!
