//! The substitution tables.

use vstd::prelude::*;

verus! {

/// The version of the tables.
pub const DATA_VERSION: &'static str = "0.7.5";

/// Commands and symbols with their Unicode values, longest pattern first.
pub const REPLACEMENTS: [(&'static str, &'static str); 186] = [
    ("\\rightleftharpoons", "\u{21cc}"),
    ("\\leftrightarrow", "\u{2194}"),
    ("\\longrightarrow", "\u{27f6}"),
    ("\\Leftrightarrow", "\u{21d4}"),
    ("\\hookrightarrow", "\u{21aa}"),
    ("\\longleftarrow", "\u{27f5}"),
    ("\\hookleftarrow", "\u{21a9}"),
    ("\\rightarrow", "\u{2192}"),
    ("\\Rightarrow", "\u{21d2}"),
    ("\\varnothing", "\u{2205}"),
    ("\\sqsubseteq", "\u{2291}"),
    ("\\sqsupseteq", "\u{2292}"),
    ("\\leftarrow", "\u{2190}"),
    ("\\Leftarrow", "\u{21d0}"),
    ("\\downarrow", "\u{2193}"),
    ("\\Downarrow", "\u{21d3}"),
    ("\\bigotimes", "\u{2a02}"),
    ("\\therefore", "\u{2234}"),
    ("\\mathbb{R}", "\u{211d}"),
    ("\\mathbb{N}", "\u{2115}"),
    ("\\mathbb{Z}", "\u{2124}"),
    ("\\mathbb{Q}", "\u{211a}"),
    ("\\mathbb{C}", "\u{2102}"),
    ("\\nsubseteq", "\u{2288}"),
    ("\\nsupseteq", "\u{2289}"),
    ("\\copyright", "\u{a9}"),
    ("\\subseteq", "\u{2286}"),
    ("\\supseteq", "\u{2287}"),
    ("\\emptyset", "\u{2205}"),
    ("\\parallel", "\u{2225}"),
    ("\\setminus", "\u{2216}"),
    ("\\bigoplus", "\u{2a01}"),
    ("\\triangle", "\u{25b3}"),
    ("\\vartheta", "\u{3d1}"),
    ("\\varsigma", "\u{3c2}"),
    ("\\epsilon", "\u{3b5}"),
    ("\\upsilon", "\u{3c5}"),
    ("\\Upsilon", "\u{3a5}"),
    ("\\partial", "\u{2202}"),
    ("\\ddagger", "\u{2021}"),
    ("\\uparrow", "\u{2191}"),
    ("\\Uparrow", "\u{21d1}"),
    ("\\implies", "\u{27f9}"),
    ("\\diamond", "\u{22c4}"),
    ("\\because", "\u{2235}"),
    ("\\nexists", "\u{2204}"),
    ("\\nearrow", "\u{2197}"),
    ("\\searrow", "\u{2198}"),
    ("\\swarrow", "\u{2199}"),
    ("\\nwarrow", "\u{2196}"),
    ("\\breve{}", "\u{2d8}"),
    ("\\acute{}", "\u{b4}"),
    ("\\check{}", "\u{2c7}"),
    ("\\lambda", "\u{3bb}"),
    ("\\Lambda", "\u{39b}"),
    ("\\approx", "\u{2248}"),
    ("\\forall", "\u{2200}"),
    ("\\exists", "\u{2203}"),
    ("\\subset", "\u{2282}"),
    ("\\supset", "\u{2283}"),
    ("\\otimes", "\u{2297}"),
    ("\\langle", "\u{27e8}"),
    ("\\rangle", "\u{27e9}"),
    ("\\propto", "\u{221d}"),
    ("\\bullet", "\u{2219}"),
    ("\\dagger", "\u{2020}"),
    ("\\mapsto", "\u{21a6}"),
    ("\\models", "\u{22a8}"),
    ("\\lfloor", "\u{230a}"),
    ("\\rfloor", "\u{230b}"),
    ("\\coprod", "\u{2210}"),
    ("\\bigcup", "\u{22c3}"),
    ("\\bigcap", "\u{22c2}"),
    ("\\square", "\u{25a1}"),
    ("\\ominus", "\u{2296}"),
    ("\\oslash", "\u{2298}"),
    ("\\varrho", "\u{3f1}"),
    ("\\pounds", "\u{a3}"),
    ("\\ddot{}", "\u{a8}"),
    ("\\alpha", "\u{3b1}"),
    ("\\gamma", "\u{3b3}"),
    ("\\delta", "\u{3b4}"),
    ("\\theta", "\u{3b8}"),
    ("\\kappa", "\u{3ba}"),
    ("\\sigma", "\u{3c3}"),
    ("\\omega", "\u{3c9}"),
    ("\\Gamma", "\u{393}"),
    ("\\Delta", "\u{394}"),
    ("\\Theta", "\u{398}"),
    ("\\Sigma", "\u{3a3}"),
    ("\\Omega", "\u{3a9}"),
    ("\\times", "\u{d7}"),
    ("\\equiv", "\u{2261}"),
    ("\\infty", "\u{221e}"),
    ("\\nabla", "\u{2207}"),
    ("\\notin", "\u{2209}"),
    ("\\oplus", "\u{2295}"),
    ("\\ldots", "\u{2026}"),
    ("\\cdots", "\u{22ef}"),
    ("\\aleph", "\u{2135}"),
    ("\\angle", "\u{2220}"),
    ("\\simeq", "\u{2243}"),
    ("\\wedge", "\u{2227}"),
    ("\\vdash", "\u{22a2}"),
    ("\\dashv", "\u{22a3}"),
    ("\\lceil", "\u{2308}"),
    ("\\rceil", "\u{2309}"),
    ("\\iiint", "\u{222d}"),
    ("\\prime", "\u{2032}"),
    ("\\asymp", "\u{224d}"),
    ("\\doteq", "\u{2250}"),
    ("\\gimel", "\u{2137}"),
    ("\\imath", "\u{131}"),
    ("\\jmath", "\u{237}"),
    ("\\vdots", "\u{22ee}"),
    ("\\ddots", "\u{22f1}"),
    ("\\varpi", "\u{3d6}"),
    ("\\dot{}", "\u{2d9}"),
    ("\\bar{}", "\u{af}"),
    ("\\beta", "\u{3b2}"),
    ("\\zeta", "\u{3b6}"),
    ("\\iota", "\u{3b9}"),
    ("\\cdot", "\u{22c5}"),
    ("\\prod", "\u{220f}"),
    ("\\sqrt", "\u{221a}"),
    ("\\land", "\u{2227}"),
    ("\\hbar", "\u{210f}"),
    ("\\perp", "\u{22a5}"),
    ("\\cong", "\u{2245}"),
    ("\\circ", "\u{2218}"),
    ("\\star", "\u{22c6}"),
    ("\\nmid", "\u{2224}"),
    ("\\oint", "\u{222e}"),
    ("\\iint", "\u{222c}"),
    ("\\odot", "\u{2299}"),
    ("\\nleq", "\u{2270}"),
    ("\\ngeq", "\u{2271}"),
    ("\\prec", "\u{227a}"),
    ("\\succ", "\u{227b}"),
    ("\\beth", "\u{2136}"),
    ("\\lnot", "\u{ac}"),
    ("\\dots", "\u{2026}"),
    ("\\eta", "\u{3b7}"),
    ("\\rho", "\u{3c1}"),
    ("\\tau", "\u{3c4}"),
    ("\\phi", "\u{3c6}"),
    ("\\chi", "\u{3c7}"),
    ("\\psi", "\u{3c8}"),
    ("\\Phi", "\u{3a6}"),
    ("\\Psi", "\u{3a8}"),
    ("\\div", "\u{f7}"),
    ("\\leq", "\u{2264}"),
    ("\\geq", "\u{2265}"),
    ("\\neq", "\u{2260}"),
    ("\\sim", "\u{223c}"),
    ("\\cup", "\u{222a}"),
    ("\\cap", "\u{2229}"),
    ("\\sum", "\u{2211}"),
    ("\\int", "\u{222b}"),
    ("\\lor", "\u{2228}"),
    ("\\neg", "\u{ac}"),
    ("\\ell", "\u{2113}"),
    ("\\ast", "\u{2217}"),
    ("\\vee", "\u{2228}"),
    ("\\iff", "\u{27fa}"),
    ("\\top", "\u{22a4}"),
    ("\\bot", "\u{22a5}"),
    ("\\mho", "\u{2127}"),
    ("\\mu", "\u{3bc}"),
    ("\\nu", "\u{3bd}"),
    ("\\xi", "\u{3be}"),
    ("\\pi", "\u{3c0}"),
    ("\\Xi", "\u{39e}"),
    ("\\Pi", "\u{3a0}"),
    ("\\pm", "\u{b1}"),
    ("\\mp", "\u{2213}"),
    ("\\in", "\u{2208}"),
    ("\\to", "\u{2192}"),
    ("\\ll", "\u{226a}"),
    ("\\gg", "\u{226b}"),
    ("\\wp", "\u{2118}"),
    ("\\Re", "\u{211c}"),
    ("\\Im", "\u{2111}"),
    ("\\{", "{"),
    ("\\}", "}"),
    ("-", "\u{2212}"),
];

/// The entries of [`REPLACEMENTS`] whose pattern ends in `{}`: a mark with nothing to stand on.
pub const REPLACEMENTS_WITH_BRACKET_SUFFIX: [(&'static str, &'static str); 6] = [
    ("\\breve{}", "\u{2d8}"),
    ("\\acute{}", "\u{b4}"),
    ("\\check{}", "\u{2c7}"),
    ("\\ddot{}", "\u{a8}"),
    ("\\dot{}", "\u{2d9}"),
    ("\\bar{}", "\u{af}"),
];

/// Single subscript and superscript tokens with their Unicode values.
pub const SUB_SUPER_SCRIPTS: [(&'static str, &'static str); 103] = [
    ("_0", "\u{2080}"),
    ("_1", "\u{2081}"),
    ("_2", "\u{2082}"),
    ("_3", "\u{2083}"),
    ("_4", "\u{2084}"),
    ("_5", "\u{2085}"),
    ("_6", "\u{2086}"),
    ("_7", "\u{2087}"),
    ("_8", "\u{2088}"),
    ("_9", "\u{2089}"),
    ("_+", "\u{208a}"),
    ("_-", "\u{208b}"),
    ("_\u{2212}", "\u{208b}"),
    ("_=", "\u{208c}"),
    ("_(", "\u{208d}"),
    ("_)", "\u{208e}"),
    ("_a", "\u{2090}"),
    ("_e", "\u{2091}"),
    ("_o", "\u{2092}"),
    ("_x", "\u{2093}"),
    ("_h", "\u{2095}"),
    ("_k", "\u{2096}"),
    ("_l", "\u{2097}"),
    ("_m", "\u{2098}"),
    ("_n", "\u{2099}"),
    ("_p", "\u{209a}"),
    ("_s", "\u{209b}"),
    ("_t", "\u{209c}"),
    ("_i", "\u{1d62}"),
    ("_r", "\u{1d63}"),
    ("_u", "\u{1d64}"),
    ("_v", "\u{1d65}"),
    ("_j", "\u{2c7c}"),
    ("_\u{3b2}", "\u{1d66}"),
    ("_\u{3b3}", "\u{1d67}"),
    ("_\u{3c1}", "\u{1d68}"),
    ("_\u{3c6}", "\u{1d69}"),
    ("_\u{3c7}", "\u{1d6a}"),
    ("^0", "\u{2070}"),
    ("^1", "\u{b9}"),
    ("^2", "\u{b2}"),
    ("^3", "\u{b3}"),
    ("^4", "\u{2074}"),
    ("^5", "\u{2075}"),
    ("^6", "\u{2076}"),
    ("^7", "\u{2077}"),
    ("^8", "\u{2078}"),
    ("^9", "\u{2079}"),
    ("^+", "\u{207a}"),
    ("^-", "\u{207b}"),
    ("^\u{2212}", "\u{207b}"),
    ("^=", "\u{207c}"),
    ("^(", "\u{207d}"),
    ("^)", "\u{207e}"),
    ("^n", "\u{207f}"),
    ("^i", "\u{2071}"),
    ("^a", "\u{1d43}"),
    ("^b", "\u{1d47}"),
    ("^c", "\u{1d9c}"),
    ("^d", "\u{1d48}"),
    ("^e", "\u{1d49}"),
    ("^f", "\u{1da0}"),
    ("^g", "\u{1d4d}"),
    ("^h", "\u{2b0}"),
    ("^j", "\u{2b2}"),
    ("^k", "\u{1d4f}"),
    ("^l", "\u{2e1}"),
    ("^m", "\u{1d50}"),
    ("^o", "\u{1d52}"),
    ("^p", "\u{1d56}"),
    ("^r", "\u{2b3}"),
    ("^s", "\u{2e2}"),
    ("^t", "\u{1d57}"),
    ("^u", "\u{1d58}"),
    ("^v", "\u{1d5b}"),
    ("^w", "\u{2b7}"),
    ("^x", "\u{2e3}"),
    ("^y", "\u{2b8}"),
    ("^z", "\u{1dbb}"),
    ("^A", "\u{1d2c}"),
    ("^B", "\u{1d2e}"),
    ("^D", "\u{1d30}"),
    ("^E", "\u{1d31}"),
    ("^G", "\u{1d33}"),
    ("^H", "\u{1d34}"),
    ("^I", "\u{1d35}"),
    ("^J", "\u{1d36}"),
    ("^K", "\u{1d37}"),
    ("^L", "\u{1d38}"),
    ("^M", "\u{1d39}"),
    ("^N", "\u{1d3a}"),
    ("^O", "\u{1d3c}"),
    ("^P", "\u{1d3e}"),
    ("^R", "\u{1d3f}"),
    ("^T", "\u{1d40}"),
    ("^U", "\u{1d41}"),
    ("^W", "\u{1d42}"),
    ("^\u{3b2}", "\u{1d5d}"),
    ("^\u{3b3}", "\u{1d5e}"),
    ("^\u{3b4}", "\u{1d5f}"),
    ("^\u{3c6}", "\u{1d60}"),
    ("^\u{3c7}", "\u{1d61}"),
    ("^\u{222b}", "\u{1db4}"),
];

/// Commands that put a mark on the character in their braces, with the combining code point.
pub const COMBINING_MARKS: [(&'static str, &'static str); 14] = [
    ("\\underline", "\u{332}"),
    ("\\overline", "\u{305}"),
    ("\\underbar", "\u{331}"),
    ("\\grave", "\u{300}"),
    ("\\acute", "\u{301}"),
    ("\\tilde", "\u{303}"),
    ("\\breve", "\u{306}"),
    ("\\check", "\u{30c}"),
    ("\\slash", "\u{338}"),
    ("\\ddot", "\u{308}"),
    ("\\hat", "\u{302}"),
    ("\\bar", "\u{304}"),
    ("\\dot", "\u{307}"),
    ("\\vec", "\u{20d7}"),
];

} // verus!
